//! The route table: which backend serves which subdomain label.

use vstd::prelude::*;

verus! {

/// Where requests for one subdomain are sent.
#[derive(Debug, PartialEq, Eq)]
pub struct BackendAddress {
    /// Host name or IP address of the backend.
    pub host: String,
    /// TCP port of the backend.
    pub port: u16,
    /// Whether the connection to the backend uses TLS.
    pub tls: bool,
    /// The server name presented to the backend (SNI and virtual host).
    pub sni: String,
}

/// A backend address as plain mathematical values.
pub struct BackendAddressView {
    pub host: Seq<char>,
    pub port: u16,
    pub tls: bool,
    pub sni: Seq<char>,
}

impl View for BackendAddress {
    type V = BackendAddressView;

    open spec fn view(&self) -> BackendAddressView {
        BackendAddressView { host: self.host@, port: self.port, tls: self.tls, sni: self.sni@ }
    }
}

impl Clone for BackendAddress {
    fn clone(&self) -> (copy: Self)
        ensures
            copy@ == self@,
    {
        BackendAddress {
            host: self.host.clone(),
            port: self.port,
            tls: self.tls,
            sni: self.sni.clone(),
        }
    }
}

impl BackendAddress {
    /// An address from its four parts.
    pub fn new(host: &str, port: u16, tls: bool, sni: &str) -> (address: Self)
        ensures
            address@ == (BackendAddressView { host: host@, port, tls, sni: sni@ }),
    {
        BackendAddress { host: host.to_owned(), port, tls, sni: sni.to_owned() }
    }
}

/// One entry of the table.
#[derive(Debug)]
struct Route {
    label: String,
    backend: BackendAddress,
}

/// An ordered mapping from subdomain label to backend address, filled once at
/// startup. No label occurs twice; a label that is absent is simply not
/// routed.
#[derive(Debug)]
pub struct RouteTable {
    routes: Vec<Route>,
}

impl RouteTable {
    #[verifier::type_invariant]
    spec fn labels_are_unique(&self) -> bool {
        forall|i: int, j: int|
            0 <= i < j < self.routes@.len() ==> self.routes@[i].label@ != self.routes@[j].label@
    }

    /// The labels of the table, in the order in which they were added.
    pub closed spec fn labels(&self) -> Seq<Seq<char>> {
        Seq::new(self.routes@.len(), |i: int| self.routes@[i].label@)
    }

    spec fn position(&self, label: Seq<char>) -> int {
        choose|i: int| 0 <= i < self.routes@.len() && self.routes@[i].label@ == label
    }

    /// The table as a map from label to backend address.
    pub closed spec fn view(&self) -> Map<Seq<char>, BackendAddressView> {
        Map::new(
            |label: Seq<char>| self.labels().contains(label),
            |label: Seq<char>| self.routes@[self.position(label)].backend@,
        )
    }

    /// The labels are exactly the keys of the map, and there are finitely
    /// many of them.
    pub proof fn labels_are_the_keys(&self)
        ensures
            self@.dom() == self.labels().to_set(),
            self@.dom().finite(),
    {
        vstd::seq_lib::seq_to_set_is_finite(self.labels());
    }

    /// A table without entries.
    pub fn new() -> (table: Self)
        ensures
            table@ == Map::<Seq<char>, BackendAddressView>::empty(),
            table.labels() == Seq::<Seq<char>>::empty(),
    {
        RouteTable { routes: Vec::new() }
    }

    /// The number of entries, which is also the number of distinct labels.
    pub fn len(&self) -> (n: usize)
        ensures
            n == self.labels().len(),
            n == self@.dom().len(),
            self.labels().no_duplicates(),
    {
        proof {
            use_type_invariant(self);
            self.labels_are_the_keys();
            self.labels().unique_seq_to_set();
        }
        self.routes.len()
    }

    /// The index of the entry for `label`, if there is one.
    fn find(&self, label: &String) -> (found: Option<usize>)
        ensures
            match found {
                Some(i) => i < self.routes@.len() && self.routes@[i as int].label@ == label@,
                None => !self.labels().contains(label@),
            },
    {
        let mut i: usize = 0;
        while i < self.routes.len()
            invariant
                i <= self.routes@.len(),
                forall|j: int| 0 <= j < i ==> self.routes@[j].label@ != label@,
            decreases self.routes@.len() - i,
        {
            if self.routes[i].label == *label {
                return Some(i);
            }
            i += 1;
        }
        None
    }

    /// The backend configured for exactly `label` (case counts, and there are
    /// no wildcards), or `None` where the table has no such entry.
    pub fn lookup(&self, label: &str) -> (found: Option<BackendAddress>)
        ensures
            found is Some <==> self@.dom().contains(label@),
            found matches Some(address) ==> address@ == self@[label@],
    {
        proof {
            use_type_invariant(self);
        }
        let key = label.to_owned();
        match self.find(&key) {
            Some(i) => {
                proof {
                    assert(self.labels()[i as int] == label@);
                    assert(self.position(label@) == i);
                }
                Some(self.routes[i].backend.clone())
            },
            None => None,
        }
    }

    /// The label of the entry at position `index`, counting from 0 in the
    /// order in which the entries were added.
    pub fn label_at(&self, index: usize) -> (label: Option<&str>)
        ensures
            label is Some <==> index < self.labels().len(),
            label matches Some(l) ==> l@ == self.labels()[index as int],
    {
        if index < self.routes.len() {
            Some(self.routes[index].label.as_str())
        } else {
            None
        }
    }

    /// Whether the table has an entry for `label`.
    pub fn contains(&self, label: &str) -> (yes: bool)
        ensures
            yes == self@.dom().contains(label@),
    {
        let key = label.to_owned();
        match self.find(&key) {
            Some(i) => {
                proof {
                    assert(self.labels()[i as int] == label@);
                }
                true
            },
            None => false,
        }
    }

    /// Adds an entry for `label`, after the entries already there.
    ///
    /// A label that the table already holds keeps its backend: the table is
    /// then left as it was and `false` is returned.
    pub fn insert(&mut self, label: &str, backend: BackendAddress) -> (added: bool)
        ensures
            added == !old(self)@.dom().contains(label@),
            added ==> final(self)@ == old(self)@.insert(label@, backend@),
            added ==> final(self).labels() == old(self).labels().push(label@),
            !added ==> final(self)@ == old(self)@ && final(self).labels() == old(self).labels(),
    {
        proof {
            use_type_invariant(&*self);
        }
        let key = label.to_owned();
        match self.find(&key) {
            Some(i) => {
                proof {
                    assert(self.labels()[i as int] == label@);
                }
                false
            },
            None => {
                let ghost before = *self;
                let mut routes: Vec<Route> = Vec::new();
                std::mem::swap(&mut routes, &mut self.routes);
                routes.push(Route { label: key, backend });
                proof {
                    let last = before.routes@.len() as int;
                    assert forall|i: int, j: int| 0 <= i < j < routes@.len() implies routes@[i].label@
                        != routes@[j].label@ by {
                        if j == last {
                            assert(before.labels()[i] == routes@[i].label@);
                        }
                    }
                }
                self.routes = routes;
                proof {
                    let last = before.routes@.len() as int;
                    let grown = before@.insert(label@, backend@);
                    assert(self.labels() =~= before.labels().push(label@));
                    assert(self.labels()[last] == label@);
                    // The keys are the old ones and the new label.
                    assert forall|l: Seq<char>| self.labels().contains(l) <==> (l == label@
                        || before.labels().contains(l)) by {
                        if before.labels().contains(l) {
                            let p = choose|i: int|
                                0 <= i < before.labels().len() && before.labels()[i] == l;
                            assert(self.labels()[p] == l);
                        }
                        if self.labels().contains(l) && l != label@ {
                            let q = choose|i: int|
                                0 <= i < self.labels().len() && self.labels()[i] == l;
                            assert(before.labels()[q] == l);
                        }
                    }
                    // Each key is found where it was, the new label at the end.
                    assert forall|l: Seq<char>| #[trigger] self.labels().contains(l) implies self@[l]
                        == grown[l] by {
                        let q = self.position(l);
                        assert(self.routes@[q].label@ == l);
                        if l != label@ {
                            let p = before.position(l);
                            assert(before.routes@[p].label@ == l);
                            assert(p == q);
                        } else {
                            assert(q == last);
                        }
                    }
                    assert(self@ =~= grown);
                }
                true
            },
        }
    }
}

} // verus!
