use vstd::prelude::*;

use crate::cstring::{c_string, decode_c_string};
use crate::error::Error;

verus! {

/// A declared input or output of a kernel: its name and its declared type.
pub struct PortInfo<T> {
    pub name: String,
    pub value_type: T,
}

/// A port seen through its name's characters.
pub open spec fn port_view<T>(p: PortInfo<T>) -> (Seq<char>, T) {
    (p.name@, p.value_type)
}

/// One enumeration step: the port at the next index joins the list when its
/// name decodes; otherwise the enumeration fails with the decoding error.
pub open spec fn push_step<T>(ports: Seq<(Seq<char>, T)>, name: Seq<u8>, value_type: T) -> Result<
    Seq<(Seq<char>, T)>,
    Error,
> {
    match c_string(name) {
        Ok(s) => Ok(ports.push((s, value_type))),
        Err(e) => Err(e),
    }
}

/// Enumerating ports whose raw names and types the engine reports, in
/// declaration order: all of them, or the first failure.
pub open spec fn enumerated<T>(names: Seq<Seq<u8>>, types: Seq<T>) -> Result<
    Seq<(Seq<char>, T)>,
    Error,
>
    decreases names.len(),
{
    if names.len() == 0 {
        Ok(seq![])
    } else {
        match enumerated(names.drop_last(), types.drop_last()) {
            Ok(ports) => push_step(ports, names.last(), types.last()),
            Err(e) => Err(e),
        }
    }
}

/// The ports of a kernel collected one index at a time, up to the number the
/// engine declared.
pub struct PortList<T> {
    declared: usize,
    ports: Vec<PortInfo<T>>,
}

impl<T> PortList<T> {
    /// How many ports the engine declared.
    pub closed spec fn declared(&self) -> nat {
        self.declared as nat
    }

    /// The ports collected so far, in declaration order.
    pub closed spec fn ports(&self) -> Seq<(Seq<char>, T)> {
        self.ports@.map_values(|p: PortInfo<T>| port_view(p))
    }

    pub closed spec fn wf(&self) -> bool {
        self.ports@.len() <= self.declared
    }

    /// Starts the enumeration of `declared` ports.
    pub fn new(declared: usize) -> (r: Self)
        ensures
            r.wf(),
            r.declared() == declared,
            r.ports() == Seq::<(Seq<char>, T)>::empty(),
    {
        let r = PortList { declared, ports: Vec::new() };
        assert(r.ports() =~= Seq::<(Seq<char>, T)>::empty());
        r
    }

    /// The index whose name and type come next, or `None` once every declared
    /// port has been collected.
    pub fn next_index(&self) -> (r: Option<usize>)
        requires
            self.wf(),
        ensures
            r == (if self.ports().len() < self.declared() {
                Some(self.ports().len() as usize)
            } else {
                None
            }),
    {
        if self.ports.len() < self.declared {
            Some(self.ports.len())
        } else {
            None
        }
    }

    /// Adds the port at the next index from its NUL-terminated name, as the
    /// engine filled it, and its declared type.
    pub fn push_port(&mut self, name: Vec<u8>, value_type: T) -> (r: Result<(), Error>)
        requires
            old(self).wf(),
            old(self).ports().len() < old(self).declared(),
        ensures
            final(self).wf(),
            final(self).declared() == old(self).declared(),
            match push_step(old(self).ports(), name@, value_type) {
                Ok(ports) => r is Ok && final(self).ports() == ports,
                Err(e) => r == Err::<(), Error>(e) && final(self).ports() == old(self).ports(),
            },
    {
        match decode_c_string(name) {
            Ok(s) => {
                let port = PortInfo { name: s, value_type };
                self.ports.push(port);
                assert(self.ports() =~= old(self).ports().push((s@, value_type)));
                Ok(())
            },
            Err(e) => Err(e),
        }
    }

    /// Whether every declared port has been collected.
    pub fn is_complete(&self) -> (r: bool)
        requires
            self.wf(),
        ensures
            r == (self.ports().len() == self.declared()),
    {
        self.ports.len() == self.declared
    }

    /// The collected ports, once all are there.
    pub fn finish(self) -> (r: Vec<PortInfo<T>>)
        requires
            self.wf(),
            self.ports().len() == self.declared(),
        ensures
            r@.len() == self.declared(),
            forall|i: int| 0 <= i < r@.len() ==> port_view(#[trigger] r@[i]) == self.ports()[i],
    {
        self.ports
    }
}

/// Enumerating a kernel that declares `names.len()` ports, each of whose
/// names decodes, yields exactly that many ports, in declaration order, each
/// with its decoded name and its declared type; a kernel that declares none
/// yields none.
pub proof fn lemma_enumeration_in_declaration_order<T>(names: Seq<Seq<u8>>, types: Seq<T>)
    requires
        names.len() == types.len(),
        forall|i: int| 0 <= i < names.len() ==> (#[trigger] c_string(names[i])) is Ok,
    ensures
        enumerated(names, types) is Ok,
        enumerated(names, types)->Ok_0.len() == names.len(),
        forall|i: int|
            0 <= i < names.len() ==> (#[trigger] enumerated(names, types)->Ok_0[i]) == (
                c_string(names[i])->Ok_0,
                types[i],
            ),
    decreases names.len(),
{
    if names.len() > 0 {
        let (ns, ts) = (names.drop_last(), types.drop_last());
        assert forall|i: int| 0 <= i < ns.len() implies (#[trigger] c_string(ns[i])) is Ok by {
            assert(ns[i] == names[i]);
        }
        lemma_enumeration_in_declaration_order(ns, ts);
        assert(c_string(names[names.len() - 1]) is Ok);
    }
}

} // verus!
