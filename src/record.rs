use vstd::prelude::*;

verus! {

/// What kind of service is advertised: its name and transport protocol
/// (`airplay` over `tcp`), and the sub-types it announces, in order.
#[derive(Clone, Debug, PartialEq, Eq)]
pub struct ServiceType {
    pub name: String,
    pub protocol: String,
    pub sub_types: Vec<String>,
}

pub struct ServiceTypeView {
    pub name: Seq<char>,
    pub protocol: Seq<char>,
    pub sub_types: Seq<Seq<char>>,
}

pub open spec fn strings_view(v: Seq<String>) -> Seq<Seq<char>> {
    v.map_values(|s: String| s@)
}

pub open spec fn pairs_view(v: Seq<(String, String)>) -> Seq<(Seq<char>, Seq<char>)> {
    v.map_values(|p: (String, String)| (p.0@, p.1@))
}

impl View for ServiceType {
    type V = ServiceTypeView;

    open spec fn view(&self) -> ServiceTypeView {
        ServiceTypeView {
            name: self.name@,
            protocol: self.protocol@,
            sub_types: strings_view(self.sub_types@),
        }
    }
}

impl ServiceType {
    /// A value-copy with the same characters in every field.
    pub fn duplicate(&self) -> (r: ServiceType)
        ensures
            r@ == self@,
    {
        ServiceType {
            name: self.name.clone(),
            protocol: self.protocol.clone(),
            sub_types: copy_strings(&self.sub_types),
        }
    }
}

/// One discovered service, as the resolver reported it. Never changed after
/// it is made; views hold copies of it.
#[derive(Clone, Debug, PartialEq, Eq)]
pub struct ServiceRecord {
    pub name: String,
    pub host_name: String,
    pub address: String,
    pub port: u16,
    pub service_type: ServiceType,
    /// Key/value pairs of the service's text record, in the order given.
    pub txt: Option<Vec<(String, String)>>,
}

pub struct RecordView {
    pub name: Seq<char>,
    pub host_name: Seq<char>,
    pub address: Seq<char>,
    pub port: u16,
    pub service_type: ServiceTypeView,
    pub txt: Option<Seq<(Seq<char>, Seq<char>)>>,
}

impl View for ServiceRecord {
    type V = RecordView;

    open spec fn view(&self) -> RecordView {
        RecordView {
            name: self.name@,
            host_name: self.host_name@,
            address: self.address@,
            port: self.port,
            service_type: self.service_type@,
            txt: match self.txt {
                Some(t) => Some(pairs_view(t@)),
                None => None,
            },
        }
    }
}

impl ServiceRecord {
    /// A value-copy (a snapshot) with the same contents in every field.
    pub fn duplicate(&self) -> (r: ServiceRecord)
        ensures
            r@ == self@,
    {
        let txt = match &self.txt {
            Some(t) => Some(copy_pairs(t)),
            None => None,
        };
        ServiceRecord {
            name: self.name.clone(),
            host_name: self.host_name.clone(),
            address: self.address.clone(),
            port: self.port,
            service_type: self.service_type.duplicate(),
            txt,
        }
    }
}

/// Copies a list of strings, keeping each one's characters.
pub fn copy_strings(v: &Vec<String>) -> (r: Vec<String>)
    ensures
        strings_view(r@) == strings_view(v@),
{
    let mut r: Vec<String> = Vec::new();
    let mut i: usize = 0;
    while i < v.len()
        invariant
            i <= v@.len(),
            r@.len() == i,
            forall|j: int| 0 <= j < i ==> #[trigger] r@[j]@ == v@[j]@,
        decreases v@.len() - i,
    {
        r.push(v[i].clone());
        i = i + 1;
    }
    assert(strings_view(r@) =~= strings_view(v@));
    r
}

/// Copies a list of key/value pairs, keeping their order and characters.
pub fn copy_pairs(v: &Vec<(String, String)>) -> (r: Vec<(String, String)>)
    ensures
        pairs_view(r@) == pairs_view(v@),
{
    let mut r: Vec<(String, String)> = Vec::new();
    let mut i: usize = 0;
    while i < v.len()
        invariant
            i <= v@.len(),
            r@.len() == i,
            forall|j: int| 0 <= j < i ==> #[trigger] r@[j].0@ == v@[j].0@ && r@[j].1@ == v@[j].1@,
        decreases v@.len() - i,
    {
        let (k, val) = &v[i];
        r.push((k.clone(), val.clone()));
        i = i + 1;
    }
    assert(pairs_view(r@) =~= pairs_view(v@));
    r
}

} // verus!
