//! What is stored about the devices that were seen, keyed by their address.
use crate::devices::nothing::{NothingInformation, NothingInformationView};
use vstd::prelude::*;

verus! {

/// The maker of a device. `Other` carries the stored form of a maker that is
/// none of this library's business.
#[derive(Debug)]
pub enum DeviceType {
    Nothing,
    Other(String),
}

pub enum DeviceTypeView {
    Nothing,
    Other(Seq<char>),
}

impl View for DeviceType {
    type V = DeviceTypeView;

    open spec fn view(&self) -> DeviceTypeView {
        match self {
            DeviceType::Nothing => DeviceTypeView::Nothing,
            DeviceType::Other(stored) => DeviceTypeView::Other(stored@),
        }
    }
}

impl Clone for DeviceType {
    fn clone(&self) -> (copy: Self)
        ensures
            copy == *self,
    {
        match self {
            DeviceType::Nothing => DeviceType::Nothing,
            DeviceType::Other(stored) => DeviceType::Other(stored.clone()),
        }
    }
}

/// What a device told about itself. `Other` carries the stored form of what a
/// device of another maker told.
#[derive(Debug)]
pub enum DeviceInformation {
    Nothing(NothingInformation),
    Other(String),
}

pub enum DeviceInformationView {
    Nothing(NothingInformationView),
    Other(Seq<char>),
}

impl View for DeviceInformation {
    type V = DeviceInformationView;

    open spec fn view(&self) -> DeviceInformationView {
        match self {
            DeviceInformation::Nothing(information) => DeviceInformationView::Nothing(
                information@,
            ),
            DeviceInformation::Other(stored) => DeviceInformationView::Other(stored@),
        }
    }
}

impl Clone for DeviceInformation {
    fn clone(&self) -> (copy: Self)
        ensures
            copy == *self,
    {
        match self {
            DeviceInformation::Nothing(information) => DeviceInformation::Nothing(
                information.clone(),
            ),
            DeviceInformation::Other(stored) => DeviceInformation::Other(stored.clone()),
        }
    }
}

/// What is stored about one device.
#[derive(Debug)]
pub struct DeviceData {
    pub name: String,
    pub type_: DeviceType,
    pub information: Option<DeviceInformation>,
}

pub struct DeviceDataView {
    pub name: Seq<char>,
    pub type_: DeviceTypeView,
    pub information: Option<DeviceInformationView>,
}

impl View for DeviceData {
    type V = DeviceDataView;

    open spec fn view(&self) -> DeviceDataView {
        DeviceDataView {
            name: self.name@,
            type_: self.type_@,
            information: match self.information {
                Some(information) => Some(information@),
                None => None,
            },
        }
    }
}

impl Clone for DeviceData {
    fn clone(&self) -> (copy: Self)
        ensures
            copy == *self,
    {
        DeviceData {
            name: self.name.clone(),
            type_: self.type_.clone(),
            information: match &self.information {
                Some(information) => Some(information.clone()),
                None => None,
            },
        }
    }
}

/// One line of a device list.
#[derive(Debug)]
pub struct DeviceEntry {
    pub key: String,
    pub data: DeviceData,
}

/// The stored devices. No two entries have the same key.
#[derive(Debug)]
pub struct DeviceList {
    entries: Vec<DeviceEntry>,
}

/// Whether the entry at `i` is the one for `key`.
pub open spec fn entry_is_for(entries: Seq<DeviceEntry>, key: Seq<char>, i: int) -> bool {
    0 <= i < entries.len() && entries[i].key@ == key
}

/// What some entries say about each key.
pub open spec fn entries_map(entries: Seq<DeviceEntry>) -> Map<Seq<char>, DeviceDataView> {
    Map::new(
        |key: Seq<char>| exists|i: int| entry_is_for(entries, key, i),
        |key: Seq<char>| entries[choose|i: int| entry_is_for(entries, key, i)].data@,
    )
}

/// Whether no key occurs twice.
pub open spec fn keys_are_distinct(entries: Seq<DeviceEntry>) -> bool {
    forall|i: int, j: int|
        0 <= i < j < entries.len() ==> (#[trigger] entries[i]).key@ != (#[trigger] entries[j]).key@
}

proof fn entry_decides(entries: Seq<DeviceEntry>, i: int)
    requires
        keys_are_distinct(entries),
        0 <= i < entries.len(),
    ensures
        entries_map(entries).contains_key(entries[i].key@),
        entries_map(entries)[entries[i].key@] == entries[i].data@,
{
    let key = entries[i].key@;
    assert(entry_is_for(entries, key, i));
    let j = choose|j: int| entry_is_for(entries, key, j);
    assert(entry_is_for(entries, key, j));
    assert(i == j);
}

impl View for DeviceList {
    type V = Map<Seq<char>, DeviceDataView>;

    closed spec fn view(&self) -> Map<Seq<char>, DeviceDataView> {
        entries_map(self.entries@)
    }
}

impl DeviceList {
    pub closed spec fn wf(self) -> bool {
        keys_are_distinct(self.entries@)
    }

    /// A list without devices.
    pub fn new() -> (list: Self)
        ensures
            list.wf(),
            list@ == Map::<Seq<char>, DeviceDataView>::empty(),
    {
        let list = DeviceList { entries: Vec::new() };
        assert(list@ =~= Map::<Seq<char>, DeviceDataView>::empty());
        list
    }

    /// The entries of the list, each key with what is stored about it.
    pub fn entries(&self) -> (entries: &Vec<DeviceEntry>)
        requires
            self.wf(),
        ensures
            keys_are_distinct(entries@),
            entries_map(entries@) == self@,
            forall|i: int|
                0 <= i < entries@.len() ==> self@.contains_key((#[trigger] entries@[i]).key@)
                    && self@[entries@[i].key@] == entries@[i].data@,
            forall|key: Seq<char>| #[trigger]
                self@.contains_key(key) ==> exists|i: int|
                    0 <= i < entries@.len() && (#[trigger] entries@[i]).key@ == key,
    {
        proof {
            assert forall|i: int| 0 <= i < self.entries@.len() implies self@.contains_key(
                (#[trigger] self.entries@[i]).key@,
            ) && self@[self.entries@[i].key@] == self.entries@[i].data@ by {
                entry_decides(self.entries@, i);
            }
            assert forall|key: Seq<char>| #[trigger] self@.contains_key(key) implies exists|i: int|
                0 <= i < self.entries@.len() && (#[trigger] self.entries@[i]).key@ == key by {
                let i = choose|i: int| entry_is_for(self.entries@, key, i);
                assert(self.entries@[i].key@ == key);
            }
        }
        &self.entries
    }

    /// Where the entry for `key` stands.
    fn find(&self, key: &String) -> (found: Option<usize>)
        ensures
            found matches Some(i) ==> entry_is_for(self.entries@, key@, i as int),
            found is None ==> forall|i: int| !entry_is_for(self.entries@, key@, i),
    {
        let mut i: usize = 0;
        while i < self.entries.len()
            invariant
                i <= self.entries@.len(),
                forall|j: int| 0 <= j < i ==> !entry_is_for(self.entries@, key@, j),
            decreases self.entries@.len() - i,
        {
            if self.entries[i].key == *key {
                return Some(i);
            }
            i += 1;
        }
        None
    }

    /// What is stored under `key`.
    pub fn get(&self, key: &String) -> (data: Option<&DeviceData>)
        requires
            self.wf(),
        ensures
            data is Some <==> self@.contains_key(key@),
            data matches Some(d) ==> d@ == self@[key@],
    {
        match self.find(key) {
            Some(i) => {
                proof {
                    entry_decides(self.entries@, i as int);
                }
                Some(&self.entries[i].data)
            },
            None => None,
        }
    }

    /// Stores `data` under `key`, in place of what was stored there before.
    pub fn insert(&mut self, key: String, data: DeviceData)
        requires
            old(self).wf(),
        ensures
            final(self).wf(),
            final(self)@ == old(self)@.insert(key@, data@),
    {
        let ghost before = self.entries@;
        let ghost k = key@;
        let ghost d = data@;
        let at: usize = match self.find(&key) {
            Some(i) => {
                self.entries[i].data = data;
                i
            },
            None => {
                let i: usize = self.entries.len();
                self.entries.push(DeviceEntry { key, data });
                i
            },
        };
        proof {
            let after = self.entries@;
            assert(keys_are_distinct(after)) by {
                assert forall|i: int, j: int| 0 <= i < j < after.len() implies (
                #[trigger] after[i]).key@ != (#[trigger] after[j]).key@ by {
                    assert(j < before.len() ==> before[i].key@ != before[j].key@);
                    assert(!entry_is_for(before, k, i) || before.len() == after.len());
                }
            }
            assert forall|other: Seq<char>| entries_map(after).contains_key(other) == (other == k
                || entries_map(before).contains_key(other)) by {
                assert(entry_is_for(after, k, at as int));
                if entries_map(before).contains_key(other) {
                    let i = choose|i: int| entry_is_for(before, other, i);
                    assert(entry_is_for(after, other, i));
                }
                if entries_map(after).contains_key(other) && other != k {
                    let i = choose|i: int| entry_is_for(after, other, i);
                    assert(entry_is_for(before, other, i));
                }
            }
            assert forall|other: Seq<char>| entries_map(after).contains_key(other) implies (
            #[trigger] entries_map(after)[other]) == entries_map(before).insert(k, d)[other] by {
                let i = choose|i: int| entry_is_for(after, other, i);
                entry_decides(after, i);
                if other == k {
                    entry_decides(after, at as int);
                } else {
                    entry_decides(before, i);
                }
            }
            assert(entries_map(after) =~= entries_map(before).insert(k, d));
        }
    }

    /// A list that stores the same.
    pub fn duplicate(&self) -> (copy: Self)
        requires
            self.wf(),
        ensures
            copy.wf(),
            copy@ == self@,
    {
        let mut entries: Vec<DeviceEntry> = Vec::new();
        let mut i: usize = 0;
        while i < self.entries.len()
            invariant
                i <= self.entries@.len(),
                entries@ == self.entries@.take(i as int),
            decreases self.entries@.len() - i,
        {
            let entry = DeviceEntry {
                key: self.entries[i].key.clone(),
                data: self.entries[i].data.clone(),
            };
            entries.push(entry);
            i += 1;
            assert(entries@ =~= self.entries@.take(i as int));
        }
        assert(entries@ =~= self.entries@);
        DeviceList { entries }
    }
}

/// What is stored about a device is seen with all that it holds: its name, its
/// type and its information, as they are.
pub proof fn stored_data_is_seen_whole(data: DeviceData)
    ensures
        data@.name == data.name@,
        data.type_ is Nothing ==> data@.type_ is Nothing,
        data.type_ matches DeviceType::Other(stored) ==> data@.type_ == DeviceTypeView::Other(
            stored@,
        ),
        data.information is None ==> data@.information is None,
        data.information matches Some(DeviceInformation::Nothing(information)) ==> {
            &&& data@.information matches Some(DeviceInformationView::Nothing(seen))
            &&& seen.serial_number == information.serial_number@
            &&& seen.firmware_version == information.firmware_version@
        },
        data.information matches Some(DeviceInformation::Other(stored)) ==> data@.information
            == Some(DeviceInformationView::Other(stored@)),
{
}

} // verus!
