use vstd::prelude::*;

verus! {

/// The contents of a service record: the text of its three fields.
pub struct ServiceModel {
    pub name: Seq<char>,
    pub ip: Seq<char>,
    pub port: Seq<char>,
}

/// One monitored endpoint. The port is kept as text and only interpreted
/// when a connection target is formed.
#[derive(Clone, Debug)]
pub struct Service {
    pub name: String,
    pub ip: String,
    pub port: String,
}

impl View for Service {
    type V = ServiceModel;

    open spec fn view(&self) -> ServiceModel {
        ServiceModel { name: self.name@, ip: self.ip@, port: self.port@ }
    }
}

/// The contents of a list of services, in order.
pub open spec fn models(v: Seq<Service>) -> Seq<ServiceModel> {
    v.map_values(|s: Service| s@)
}

/// The connection target of a service: host and port joined by a colon.
pub open spec fn target_of(s: ServiceModel) -> Seq<char> {
    s.ip + seq![':'] + s.port
}

impl Service {
    pub fn new(name: String, ip: String, port: String) -> (r: Service)
        ensures
            r@ == (ServiceModel { name: name@, ip: ip@, port: port@ }),
    {
        Service { name, ip, port }
    }

    /// A copy of this record with the same contents.
    pub fn duplicate(&self) -> (r: Service)
        ensures
            r@ == self@,
    {
        Service { name: self.name.clone(), ip: self.ip.clone(), port: self.port.clone() }
    }

    /// The `host:port` text that a probe connects to.
    pub fn probe_target(&self) -> (r: String)
        ensures
            r@ == target_of(self@),
    {
        let mut r = self.ip.clone();
        r.append(":");
        r.append(self.port.as_str());
        proof {
            reveal_strlit(":");
        }
        r
    }
}

/// A copy of a list of services, same contents in the same order.
pub fn clone_services(v: &Vec<Service>) -> (r: Vec<Service>)
    ensures
        models(r@) == models(v@),
{
    let mut r: Vec<Service> = Vec::new();
    let mut i: usize = 0;
    while i < v.len()
        invariant
            i <= v.len(),
            r.len() == i,
            forall|j: int| 0 <= j < i ==> #[trigger] r@[j]@ == v@[j]@,
        decreases v.len() - i,
    {
        r.push(v[i].duplicate());
        i = i + 1;
    }
    assert(models(r@) =~= models(v@));
    r
}

} // verus!
