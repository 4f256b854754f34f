pub mod aacp_audio;
