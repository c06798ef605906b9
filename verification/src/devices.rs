//! Device catalog: immutable snapshots of the hardware endpoints and
//! the rule that picks the initially selected endpoint.

use vstd::prelude::*;

verus! {

/// Immutable snapshot of one hardware endpoint, in enumeration order;
/// indices into the catalog are the addressing scheme of selection.
#[derive(Debug, Clone)]
pub struct DeviceInfo {
    pub name: String,
    pub is_default: bool,
}

impl DeviceInfo {
    pub fn new(name: String, is_default: bool) -> (r: Self)
        ensures
            r.name == name,
            r.is_default == is_default,
    {
        DeviceInfo { name, is_default }
    }
}

/// Resolves the enumerated endpoint names: a name the platform could
/// not read degrades, non-fatally, to the placeholder "Unknown Device".
pub fn resolve_device_names(names: &Vec<Option<String>>) -> (r: Vec<String>)
    ensures
        r@.len() == names@.len(),
        forall|i: int|
            0 <= i < names@.len() ==> (#[trigger] r@[i])@ == (match names@[i] {
                Some(n) => n@,
                None => "Unknown Device"@,
            }),
{
    let mut r: Vec<String> = Vec::new();
    let mut i: usize = 0;
    while i < names.len()
        invariant
            i <= names@.len(),
            r@.len() == i as nat,
            forall|j: int|
                0 <= j < i ==> (#[trigger] r@[j])@ == (match names@[j] {
                    Some(n) => n@,
                    None => "Unknown Device"@,
                }),
        decreases names@.len() - i,
    {
        let name = match &names[i] {
            Some(n) => n.clone(),
            None => "Unknown Device".to_owned(),
        };
        r.push(name);
        i = i + 1;
    }
    r
}

/// Builds the catalog from the enumerated endpoint names: each entry
/// keeps its name and is flagged as default exactly when its name
/// equals the platform-reported default's name.
pub fn catalog_from_names(names: &Vec<String>, default_name: &String) -> (r: Vec<DeviceInfo>)
    ensures
        r@.len() == names@.len(),
        forall|i: int|
            0 <= i < names@.len() ==> (#[trigger] r@[i]).name@ == names@[i]@ && r@[i].is_default
                == (names@[i]@ == default_name@),
{
    let mut r: Vec<DeviceInfo> = Vec::new();
    let mut i: usize = 0;
    while i < names.len()
        invariant
            i <= names@.len(),
            r@.len() == i as nat,
            forall|j: int|
                0 <= j < i ==> (#[trigger] r@[j]).name@ == names@[j]@ && r@[j].is_default == (
                names@[j]@ == default_name@),
        decreases names@.len() - i,
    {
        let name = names[i].clone();
        let is_default = name.eq(default_name);
        r.push(DeviceInfo { name, is_default });
        i = i + 1;
    }
    r
}

/// The initial selection for a catalog: the first endpoint flagged as
/// default, or index 0 when none is flagged.
pub open spec fn is_initial_selection(devices: Seq<DeviceInfo>, sel: int) -> bool {
    if exists|i: int| 0 <= i < devices.len() && (#[trigger] devices[i]).is_default {
        &&& 0 <= sel < devices.len()
        &&& devices[sel].is_default
        &&& forall|j: int| 0 <= j < sel ==> !(#[trigger] devices[j]).is_default
    } else {
        sel == 0
    }
}

/// Picks the initially selected endpoint of a catalog.
pub fn initial_selection(devices: &Vec<DeviceInfo>) -> (r: usize)
    ensures
        is_initial_selection(devices@, r as int),
{
    let mut i: usize = 0;
    while i < devices.len()
        invariant
            i <= devices@.len(),
            forall|j: int| 0 <= j < i ==> !(#[trigger] devices@[j]).is_default,
        decreases devices@.len() - i,
    {
        if devices[i].is_default {
            return i;
        }
        i = i + 1;
    }
    0
}

} // verus!
