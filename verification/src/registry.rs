//! The name-indexed directory of groups: the only transport object the rest
//! of the application sees.
//!
//! A registry routes `write` and `write_need_ack` by logical name and
//! reports absence as a typed error, never a panic. It also passes through
//! the platform's best-effort enumeration of serial port names.

use vstd::prelude::*;

use crate::config::SerialPortConfig;
use crate::group::Group;
use crate::group::TransportError;
use crate::group::WritePlan;
use crate::group::group_wf;
use crate::group::need_ack_count;
use crate::group::spec_accepts;
use crate::group::spec_add_member;
use crate::group::spec_after_write_need_ack;
use crate::group::spec_remove_member;

verus! {

/// One routing entry: a logical name and the group it leads to.
#[derive(Debug)]
pub struct RegistryEntry {
    pub name: String,
    pub group: Group,
}

/// The name-to-group directory.
#[derive(Debug)]
pub struct Registry {
    pub entries: Vec<RegistryEntry>,
}

/// No two entries share a name.
pub open spec fn names_unique(s: Seq<RegistryEntry>) -> bool {
    forall|i: int, j: int| 0 <= i < j < s.len() ==> s[i].name@ != s[j].name@
}

/// Well-formedness of a registry: distinct names, every group well-formed,
/// and room left in the entry list.
pub open spec fn registry_wf(r: Registry) -> bool {
    &&& names_unique(r.entries@)
    &&& forall|i: int| 0 <= i < r.entries@.len() ==> group_wf(#[trigger] r.entries@[i].group)
    &&& r.entries@.len() <= 32767
}

/// Whether some entry carries the given name.
pub open spec fn has_name(s: Seq<RegistryEntry>, name: Seq<char>) -> bool {
    exists|i: int| 0 <= i < s.len() && s[i].name@ == name
}

/// The index of the entry with the given name (meaningful when it exists
/// and names are distinct).
pub open spec fn name_index(s: Seq<RegistryEntry>, name: Seq<char>) -> int {
    choose|i: int| 0 <= i < s.len() && s[i].name@ == name
}

impl Registry {
    /// An empty registry.
    pub fn new() -> (r: Registry)
        ensures
            r.entries@.len() == 0,
            registry_wf(r),
    {
        Registry { entries: Vec::new() }
    }

    /// The index of the entry with this name, if any.
    fn find_name(&self, name: &String) -> (r: Option<usize>)
        ensures
            match r {
                Some(i) => i < self.entries@.len() && self.entries@[i as int].name@ == name@,
                None => !has_name(self.entries@, name@),
            },
    {
        let mut i: usize = 0;
        while i < self.entries.len()
            invariant
                i <= self.entries@.len(),
                forall|j: int| 0 <= j < i ==> self.entries@[j].name@ != name@,
            decreases self.entries@.len() - i,
        {
            if self.entries[i].name == *name {
                return Some(i);
            }
            i = i + 1;
        }
        None
    }

    /// Install an empty group under this name. An entry of the same name is
    /// replaced — its old group and links are gone — and every other entry
    /// is untouched.
    pub fn add_group(&mut self, name: &String)
        requires
            registry_wf(*old(self)),
            old(self).entries@.len() < 32767,
        ensures
            registry_wf(*final(self)),
            has_name(final(self).entries@, name@),
            final(self).entries@.last().name@ == name@,
            final(self).entries@.last().group.members@.len() == 0,
            final(self).entries@.last().group.ack_counter == -1,
            !has_name(old(self).entries@, name@) ==> final(self).entries@.len() == old(
                self,
            ).entries@.len() + 1 && forall|i: int|
                0 <= i < old(self).entries@.len() ==> final(self).entries@[i] == old(
                    self,
                ).entries@[i],
            has_name(old(self).entries@, name@) ==> final(self).entries@ == old(
                self,
            ).entries@.remove(name_index(old(self).entries@, name@)).push(
                final(self).entries@.last(),
            ),
    {
        let found = self.find_name(name);
        match found {
            Some(i) => {
                self.entries.remove(i);
                proof {
                    let olde = old(self).entries@;
                    let w = name_index(olde, name@);
                    assert(olde[i as int].name@ == name@);
                    assert(w == i);
                    assert(forall|a: int, b: int|
                        0 <= a < b < self.entries@.len() ==> self.entries@[a].name@
                            != self.entries@[b].name@);
                    assert(forall|a: int|
                        0 <= a < self.entries@.len() ==> self.entries@[a].name@ != name@);
                }
            }
            None => {}
        }
        self.entries.push(RegistryEntry { name: name.clone(), group: Group::new() });
        proof {
            let e = final(self).entries@;
            assert(forall|a: int, b: int|
                0 <= a < b < e.len() - 1 ==> e[a].name@ != e[b].name@);
            assert(forall|a: int| 0 <= a < e.len() - 1 ==> e[a].name@ != name@);
            assert(names_unique(e));
            assert(e[e.len() - 1].name@ == name@);
        }
    }

    /// Add a member configuration to the group of this name, creating the
    /// group on first use. Within the group an existing member with the same
    /// path is replaced, so two links never coexist for one port; every
    /// other entry is untouched.
    pub fn add_config(&mut self, name: &String, config: &SerialPortConfig)
        requires
            registry_wf(*old(self)),
            old(self).entries@.len() < 32767,
            forall|i: int|
                0 <= i < old(self).entries@.len() ==> (#[trigger] old(
                    self,
                ).entries@[i]).group.members@.len() < 32767,
        ensures
            registry_wf(*final(self)),
            has_name(old(self).entries@, name@) ==> ({
                let i = name_index(old(self).entries@, name@);
                &&& final(self).entries@.len() == old(self).entries@.len()
                &&& forall|j: int|
                    0 <= j < final(self).entries@.len() && j != i ==> final(self).entries@[j]
                        == old(self).entries@[j]
                &&& final(self).entries@[i].name@ == name@
                &&& final(self).entries@[i].group.ack_counter == old(
                    self,
                ).entries@[i].group.ack_counter
                &&& final(self).entries@[i].group.members@ == spec_add_member(
                    old(self).entries@[i].group.members@,
                    *config,
                )
            }),
            !has_name(old(self).entries@, name@) ==> ({
                &&& final(self).entries@.len() == old(self).entries@.len() + 1
                &&& forall|j: int|
                    0 <= j < old(self).entries@.len() ==> final(self).entries@[j] == old(
                        self,
                    ).entries@[j]
                &&& final(self).entries@.last().name@ == name@
                &&& final(self).entries@.last().group.members@ =~= seq![*config]
                &&& final(self).entries@.last().group.ack_counter == -1
            }),
    {
        let found = self.find_name(name);
        match found {
            Some(i) => {
                let entry = &mut self.entries[i];
                entry.group.add_config(config);
                proof {
                    let olde = old(self).entries@;
                    assert(name_index(olde, name@) == i);
                    assert(forall|a: int, b: int|
                        0 <= a < b < final(self).entries@.len()
                            ==> final(self).entries@[a].name@ != final(self).entries@[b].name@);
                }
            }
            None => {
                let mut group = Group::new();
                group.add_config(config);
                self.entries.push(RegistryEntry { name: name.clone(), group });
                proof {
                    let e = final(self).entries@;
                    assert(forall|a: int, b: int|
                        0 <= a < b < e.len() - 1 ==> e[a].name@ != e[b].name@);
                    assert(forall|a: int| 0 <= a < e.len() - 1 ==> e[a].name@ != name@);
                    assert(names_unique(e));
                }
            }
        }
    }

    /// Remove the member with this configuration's path from the group of
    /// this name. A missing name or path is a quiet no-op; every other
    /// entry is untouched.
    pub fn remove_config(&mut self, name: &String, config: &SerialPortConfig)
        requires
            registry_wf(*old(self)),
        ensures
            registry_wf(*final(self)),
            !has_name(old(self).entries@, name@) ==> *final(self) == *old(self),
            has_name(old(self).entries@, name@) ==> ({
                let i = name_index(old(self).entries@, name@);
                &&& final(self).entries@.len() == old(self).entries@.len()
                &&& forall|j: int|
                    0 <= j < final(self).entries@.len() && j != i ==> final(self).entries@[j]
                        == old(self).entries@[j]
                &&& final(self).entries@[i].name@ == name@
                &&& final(self).entries@[i].group.ack_counter == old(
                    self,
                ).entries@[i].group.ack_counter
                &&& final(self).entries@[i].group.members@ == spec_remove_member(
                    old(self).entries@[i].group.members@,
                    config.path@,
                )
            }),
    {
        let found = self.find_name(name);
        match found {
            Some(i) => {
                let entry = &mut self.entries[i];
                entry.group.remove_config(config);
                proof {
                    assert(name_index(old(self).entries@, name@) == i);
                    assert(forall|a: int, b: int|
                        0 <= a < b < final(self).entries@.len()
                            ==> final(self).entries@[a].name@ != final(self).entries@[b].name@);
                }
            }
            None => {}
        }
    }

    /// Route a fire-and-forget write to the group of this name. An unknown
    /// name is `NotFound`; otherwise the group fans out as [`Group::write`]
    /// promises, and every other entry is untouched.
    pub fn write(&mut self, name: &String, data: &Vec<u8>) -> (r: Result<
        WritePlan,
        TransportError,
    >)
        requires
            registry_wf(*old(self)),
        ensures
            registry_wf(*final(self)),
            !has_name(old(self).entries@, name@) ==> *final(self) == *old(self) && (r matches Err(e)
                && e == TransportError::NotFound),
            has_name(old(self).entries@, name@) ==> ({
                let i = name_index(old(self).entries@, name@);
                let g = old(self).entries@[i].group;
                &&& final(self).entries@.len() == old(self).entries@.len()
                &&& forall|j: int|
                    0 <= j < final(self).entries@.len() && j != i ==> final(self).entries@[j]
                        == old(self).entries@[j]
                &&& final(self).entries@[i].name@ == name@
                &&& final(self).entries@[i].group.members == g.members
                &&& final(self).entries@[i].group.ack_counter == -1
                &&& (r is Ok <==> g.members@.len() > 0)
                &&& (r matches Err(e) ==> e == TransportError::NotFound)
                &&& (r matches Ok(plan) ==> {
                    &&& !plan.need_ack
                    &&& plan.data@ == data@
                    &&& plan.targets@.len() == g.members@.len()
                    &&& forall|k: int|
                        0 <= k < plan.targets@.len() ==> plan.targets@[k]@ == g.members@[k].path@
                })
            }),
    {
        let found = self.find_name(name);
        match found {
            Some(i) => {
                proof {
                    assert(name_index(old(self).entries@, name@) == i);
                }
                let entry = &mut self.entries[i];
                let r = entry.group.write(data);
                proof {
                    assert(forall|a: int, b: int|
                        0 <= a < b < final(self).entries@.len()
                            ==> final(self).entries@[a].name@ != final(self).entries@[b].name@);
                }
                r
            }
            None => Err(TransportError::NotFound),
        }
    }

    /// Route an acknowledgement-requiring write to the group of this name.
    /// An unknown name is `NotFound`; otherwise the group accepts, or
    /// rejects with `NotFound` (empty) or `Busy` (outstanding request), as
    /// [`Group::write_need_ack`] promises; every other entry is untouched.
    pub fn write_need_ack(&mut self, name: &String, data: &Vec<u8>) -> (r: Result<
        WritePlan,
        TransportError,
    >)
        requires
            registry_wf(*old(self)),
        ensures
            registry_wf(*final(self)),
            !has_name(old(self).entries@, name@) ==> *final(self) == *old(self) && (r matches Err(e)
                && e == TransportError::NotFound),
            has_name(old(self).entries@, name@) ==> ({
                let i = name_index(old(self).entries@, name@);
                let g = old(self).entries@[i].group;
                &&& final(self).entries@.len() == old(self).entries@.len()
                &&& forall|j: int|
                    0 <= j < final(self).entries@.len() && j != i ==> final(self).entries@[j]
                        == old(self).entries@[j]
                &&& final(self).entries@[i].name@ == name@
                &&& final(self).entries@[i].group.members == g.members
                &&& (r is Ok <==> spec_accepts(g))
                &&& (g.members@.len() == 0 ==> (r matches Err(e) && e == TransportError::NotFound))
                &&& (g.members@.len() > 0 && g.ack_counter != -1 ==> (r matches Err(e) && e
                    == TransportError::Busy))
                &&& (r is Err ==> final(self).entries@[i].group == g)
                &&& (r matches Ok(plan) ==> {
                    &&& final(self).entries@[i].group == spec_after_write_need_ack(g)
                    &&& plan.need_ack
                    &&& plan.data@ == data@
                    &&& plan.targets@.len() == g.members@.len()
                    &&& forall|k: int|
                        0 <= k < plan.targets@.len() ==> plan.targets@[k]@ == g.members@[k].path@
                })
            }),
    {
        let found = self.find_name(name);
        match found {
            Some(i) => {
                proof {
                    assert(name_index(old(self).entries@, name@) == i);
                }
                let entry = &mut self.entries[i];
                let r = entry.group.write_need_ack(data);
                proof {
                    assert(forall|a: int, b: int|
                        0 <= a < b < final(self).entries@.len()
                            ==> final(self).entries@[a].name@ != final(self).entries@[b].name@);
                }
                r
            }
            None => Err(TransportError::NotFound),
        }
    }

    /// The system's serial port names, best effort: the platform query that
    /// cannot be answered yields an empty list, never an error.
    pub fn available_ports(&self) -> Vec<String> {
        enumerate_ports()
    }
}

/// Relies on tokio_serial::available_ports (serialport's platform
/// enumeration) for the names of the ports the system reports, and on an
/// empty list standing in when the query fails. What the system reports
/// depends on the machine, so nothing further is promised of the result.
#[verifier::external_body]
fn enumerate_ports() -> Vec<String> {
    match tokio_serial::available_ports() {
        Ok(ports) => ports.into_iter().map(|p| p.port_name).collect(),
        Err(_) => Vec::new(),
    }
}

} // verus!
