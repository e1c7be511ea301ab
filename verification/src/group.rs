//! A group of redundant links sharing one logical route.
//!
//! The group owns its member configurations keyed by port path, fans every
//! write out to all members, and aggregates the members' acknowledgement
//! events into one logical completion through a single counter: `-1` means
//! idle, `0..` means a fan-out write is outstanding and counts the
//! acknowledgements observed so far. The runtime performs the channel sends
//! a [`WritePlan`] describes and feeds every upstream link event back
//! through [`Group::on_link_event`].

use vstd::prelude::*;

use crate::config::SerialPortConfig;
use crate::config::spec_requires_ack;
use crate::link::FromPortEvent;

verus! {

/// The error taxonomy of the transport layer.
#[derive(Clone, Copy, Debug, PartialEq, Eq, Structural)]
pub enum TransportError {
    /// The requested logical name or group has no matching entry.
    NotFound,
    /// An acknowledgement-requiring write is already outstanding.
    Busy,
    /// An acknowledgement window elapsed.
    TimedOut,
    /// The underlying handle is gone; the reconnect loop will heal it.
    NotConnected,
    /// Writing or queueing failed at the I/O layer.
    Io,
}

impl TransportError {
    /// A short description of the error.
    pub fn message(&self) -> (r: String)
        ensures
            *self is NotFound ==> r@ == "no serial port is available"@,
            *self is Busy ==> r@ == "waiting for ack"@,
            *self is TimedOut ==> r@ == "timed out waiting for ack"@,
            *self is NotConnected ==> r@ == "serial port is not connected"@,
            *self is Io ==> r@ == "serial port I/O error"@,
    {
        match self {
            TransportError::NotFound => String::from_str("no serial port is available"),
            TransportError::Busy => String::from_str("waiting for ack"),
            TransportError::TimedOut => String::from_str("timed out waiting for ack"),
            TransportError::NotConnected => String::from_str("serial port is not connected"),
            TransportError::Io => String::from_str("serial port I/O error"),
        }
    }
}

/// A fan-out the runtime must perform: send `data` as one write command,
/// with the given acknowledgement flag, to every listed member path.
#[derive(Clone, Debug)]
pub struct WritePlan {
    pub data: Vec<u8>,
    pub need_ack: bool,
    pub targets: Vec<String>,
}

/// What one upstream link event did to the aggregate.
#[derive(Clone, Copy, Debug, PartialEq, Eq, Structural)]
pub enum AckOutcome {
    /// The final acknowledgement arrived: the aggregate request completed
    /// and the group is idle again.
    Finished,
    /// An acknowledgement was counted; more are still owed.
    Counting,
    /// An acknowledgement arrived while no request was outstanding (for
    /// example from a straggling redundant link after completion); it is
    /// deliberately ignored and never re-triggers completion.
    LateAck,
    /// A member's acknowledgement window elapsed: the outstanding request
    /// failed and the aggregate returns to idle so a new request may be
    /// issued.
    Aborted,
    /// The event does not touch the aggregate (heartbeats, closes, or a
    /// timeout while idle).
    Ignored,
}

/// No two members share a port path.
pub open spec fn paths_unique(s: Seq<SerialPortConfig>) -> bool {
    forall|i: int, j: int| 0 <= i < j < s.len() ==> s[i].path@ != s[j].path@
}

/// How many of the members take part in acknowledgement waits: those whose
/// timeout window is nonzero.
pub open spec fn need_ack_count(s: Seq<SerialPortConfig>) -> int
    decreases s.len(),
{
    if s.len() == 0 {
        0
    } else {
        need_ack_count(s.drop_last()) + if spec_requires_ack(s.last()) {
            1int
        } else {
            0int
        }
    }
}

/// How many members carry the given port path.
pub open spec fn count_path(s: Seq<SerialPortConfig>, path: Seq<char>) -> int
    decreases s.len(),
{
    if s.len() == 0 {
        0
    } else {
        count_path(s.drop_last(), path) + if s.last().path@ == path {
            1int
        } else {
            0int
        }
    }
}

/// The acknowledgement-requiring members are some of the members.
pub proof fn lemma_need_ack_count_bounds(s: Seq<SerialPortConfig>)
    ensures
        0 <= need_ack_count(s) <= s.len(),
    decreases s.len(),
{
    if s.len() > 0 {
        lemma_need_ack_count_bounds(s.drop_last());
    }
}

/// With pairwise distinct paths, a path occurs once if some member carries
/// it and zero times otherwise.
pub proof fn lemma_count_path_unique(s: Seq<SerialPortConfig>, path: Seq<char>)
    requires
        paths_unique(s),
    ensures
        (exists|i: int| 0 <= i < s.len() && s[i].path@ == path) ==> count_path(s, path) == 1,
        (forall|i: int| 0 <= i < s.len() ==> s[i].path@ != path) ==> count_path(s, path) == 0,
    decreases s.len(),
{
    if s.len() > 0 {
        assert(paths_unique(s.drop_last())) by {
            assert(forall|i: int, j: int|
                0 <= i < j < s.drop_last().len() ==> s.drop_last()[i] == s[i]
                    && s.drop_last()[j] == s[j]);
        }
        lemma_count_path_unique(s.drop_last(), path);
        if s.last().path@ == path {
            assert(forall|i: int| 0 <= i < s.len() - 1 ==> s[i].path@ != path);
            assert(forall|i: int|
                0 <= i < s.drop_last().len() ==> s.drop_last()[i] == s[i]);
        } else {
            if exists|i: int| 0 <= i < s.len() && s[i].path@ == path {
                let i = choose|i: int| 0 <= i < s.len() && s[i].path@ == path;
                assert(s.drop_last()[i] == s[i]);
            }
        }
    }
}

/// The member list after adding a configuration with replace semantics: an
/// existing member with the same path gives way, and the new configuration
/// joins at the end.
pub open spec fn spec_add_member(s: Seq<SerialPortConfig>, c: SerialPortConfig) -> Seq<
    SerialPortConfig,
> {
    if exists|i: int| 0 <= i < s.len() && s[i].path@ == c.path@ {
        s.remove(choose|i: int| 0 <= i < s.len() && s[i].path@ == c.path@).push(c)
    } else {
        s.push(c)
    }
}

/// The member list after removing the member with the given path, if any.
pub open spec fn spec_remove_member(s: Seq<SerialPortConfig>, path: Seq<char>) -> Seq<
    SerialPortConfig,
> {
    if exists|i: int| 0 <= i < s.len() && s[i].path@ == path {
        s.remove(choose|i: int| 0 <= i < s.len() && s[i].path@ == path)
    } else {
        s
    }
}

/// One group: its members and the aggregate acknowledgement counter.
#[derive(Debug)]
pub struct Group {
    pub members: Vec<SerialPortConfig>,
    pub ack_counter: i16,
}

/// Well-formedness of a group: member paths are pairwise distinct, the
/// member count fits the counter's type, and the counter is `-1` or a
/// number of acknowledgements observed so far.
pub open spec fn group_wf(g: Group) -> bool {
    &&& paths_unique(g.members@)
    &&& g.members@.len() <= 32767
    &&& g.ack_counter >= -1
}

/// A new acknowledgement-requiring write is accepted exactly when the group
/// has a member and no request is outstanding.
pub open spec fn spec_accepts(g: Group) -> bool {
    g.members@.len() > 0 && g.ack_counter == -1
}

/// The aggregate state an accepted `write_need_ack` leaves behind: waiting
/// from zero if any member will acknowledge, idle at once otherwise.
pub open spec fn spec_after_write_need_ack(g: Group) -> Group {
    Group {
        members: g.members,
        ack_counter: if need_ack_count(g.members@) > 0 {
            0i16
        } else {
            -1i16
        },
    }
}

/// The aggregate transition on one member acknowledgement.
pub open spec fn spec_ack_step(g: Group) -> (Group, AckOutcome) {
    if g.ack_counter == -1 {
        (g, AckOutcome::LateAck)
    } else if g.ack_counter + 1 >= need_ack_count(g.members@) {
        (Group { members: g.members, ack_counter: -1i16 }, AckOutcome::Finished)
    } else {
        (Group { members: g.members, ack_counter: (g.ack_counter + 1) as i16 }, AckOutcome::Counting)
    }
}

/// The aggregate transition on one member timeout.
pub open spec fn spec_timeout_step(g: Group) -> (Group, AckOutcome) {
    if g.ack_counter >= 0 {
        (Group { members: g.members, ack_counter: -1i16 }, AckOutcome::Aborted)
    } else {
        (g, AckOutcome::Ignored)
    }
}

impl Group {
    /// An empty group: no members, aggregate idle.
    pub fn new() -> (r: Group)
        ensures
            r.members@.len() == 0,
            r.ack_counter == -1,
            group_wf(r),
    {
        Group { members: Vec::new(), ack_counter: -1 }
    }

    /// The index of the member with this path, if any.
    fn find_path(&self, path: &String) -> (r: Option<usize>)
        ensures
            match r {
                Some(i) => i < self.members@.len() && self.members@[i as int].path@ == path@,
                None => forall|i: int|
                    0 <= i < self.members@.len() ==> self.members@[i].path@ != path@,
            },
    {
        let mut i: usize = 0;
        while i < self.members.len()
            invariant
                i <= self.members@.len(),
                forall|j: int| 0 <= j < i ==> self.members@[j].path@ != path@,
            decreases self.members@.len() - i,
        {
            if self.members[i].path == *path {
                return Some(i);
            }
            i = i + 1;
        }
        None
    }

    /// How many members take part in acknowledgement waits.
    pub fn need_ack_members(&self) -> (r: usize)
        ensures
            r == need_ack_count(self.members@),
    {
        proof {
            lemma_need_ack_count_bounds(self.members@);
        }
        let mut count: usize = 0;
        let mut i: usize = 0;
        while i < self.members.len()
            invariant
                i <= self.members@.len(),
                count == need_ack_count(self.members@.take(i as int)),
                count <= i,
            decreases self.members@.len() - i,
        {
            proof {
                assert(self.members@.take(i + 1).drop_last() =~= self.members@.take(i as int));
                assert(self.members@.take(i + 1).last() == self.members@[i as int]);
            }
            if self.members[i].requires_ack() {
                count = count + 1;
            }
            i = i + 1;
        }
        proof {
            assert(self.members@.take(self.members@.len() as int) =~= self.members@);
        }
        count
    }

    /// Add a member configuration, replacing any member with the same path:
    /// two links never coexist for one port. Afterwards exactly one member
    /// carries this path, and it holds this configuration.
    pub fn add_config(&mut self, config: &SerialPortConfig)
        requires
            group_wf(*old(self)),
            old(self).members@.len() < 32767,
        ensures
            group_wf(*final(self)),
            final(self).ack_counter == old(self).ack_counter,
            final(self).members@.last() == *config,
            count_path(final(self).members@, config.path@) == 1,
            final(self).members@ == spec_add_member(old(self).members@, *config),
    {
        let found = self.find_path(&config.path);
        match found {
            Some(i) => {
                self.members.remove(i);
                proof {
                    let oldm = old(self).members@;
                    let w = choose|j: int|
                        0 <= j < oldm.len() && oldm[j].path@ == config.path@;
                    assert(w == i);
                    assert(forall|a: int, b: int|
                        0 <= a < b < self.members@.len() ==> self.members@[a].path@
                            != self.members@[b].path@);
                    assert(forall|a: int|
                        0 <= a < self.members@.len() ==> self.members@[a].path@ != config.path@);
                }
            }
            None => {}
        }
        self.members.push(config.clone());
        proof {
            let m = final(self).members@;
            assert(forall|a: int, b: int|
                0 <= a < b < m.len() - 1 ==> m[a].path@ != m[b].path@);
            assert(forall|a: int| 0 <= a < m.len() - 1 ==> m[a].path@ != config.path@);
            assert(paths_unique(m));
            lemma_count_path_unique(m, config.path@);
            assert(m[m.len() - 1].path@ == config.path@);
        }
    }

    /// Remove the member with this path, if present; the rest keep their
    /// order and no member carries the path afterwards.
    pub fn remove_config(&mut self, config: &SerialPortConfig)
        requires
            group_wf(*old(self)),
        ensures
            group_wf(*final(self)),
            final(self).ack_counter == old(self).ack_counter,
            count_path(final(self).members@, config.path@) == 0,
            final(self).members@ == spec_remove_member(old(self).members@, config.path@),
    {
        let found = self.find_path(&config.path);
        match found {
            Some(i) => {
                self.members.remove(i);
                proof {
                    let oldm = old(self).members@;
                    let w = choose|j: int|
                        0 <= j < oldm.len() && oldm[j].path@ == config.path@;
                    assert(w == i);
                    assert(forall|a: int, b: int|
                        0 <= a < b < self.members@.len() ==> self.members@[a].path@
                            != self.members@[b].path@);
                    assert(forall|a: int|
                        0 <= a < self.members@.len() ==> self.members@[a].path@ != config.path@);
                    lemma_count_path_unique(self.members@, config.path@);
                }
            }
            None => {
                proof {
                    lemma_count_path_unique(self.members@, config.path@);
                }
            }
        }
    }

    /// The member paths, in member order: the targets of a fan-out.
    fn member_paths(&self) -> (r: Vec<String>)
        ensures
            r@.len() == self.members@.len(),
            forall|i: int| 0 <= i < r@.len() ==> r@[i]@ == self.members@[i].path@,
    {
        let mut targets: Vec<String> = Vec::new();
        let mut i: usize = 0;
        while i < self.members.len()
            invariant
                i <= self.members@.len(),
                targets@.len() == i,
                forall|j: int| 0 <= j < i ==> targets@[j]@ == self.members@[j].path@,
            decreases self.members@.len() - i,
        {
            targets.push(self.members[i].path.clone());
            i = i + 1;
        }
        targets
    }

    /// A fire-and-forget write: fan out to every member without requiring an
    /// acknowledgement. It succeeds exactly when the group has a member, and
    /// it completes the aggregate state immediately — the group is idle
    /// afterwards in every case.
    pub fn write(&mut self, data: &Vec<u8>) -> (r: Result<WritePlan, TransportError>)
        requires
            group_wf(*old(self)),
        ensures
            group_wf(*final(self)),
            final(self).members == old(self).members,
            final(self).ack_counter == -1,
            r is Ok <==> old(self).members@.len() > 0,
            r matches Err(e) ==> e == TransportError::NotFound,
            r matches Ok(plan) ==> {
                &&& !plan.need_ack
                &&& plan.data@ == data@
                &&& plan.targets@.len() == old(self).members@.len()
                &&& forall|i: int|
                    0 <= i < plan.targets@.len() ==> plan.targets@[i]@
                        == old(self).members@[i].path@
            },
    {
        if self.members.len() == 0 {
            self.ack_counter = -1;
            return Err(TransportError::NotFound);
        }
        let targets = self.member_paths();
        self.ack_counter = -1;
        Ok(WritePlan { data: data.clone(), need_ack: false, targets })
    }

    /// An acknowledgement-requiring write. Rejected with `NotFound` when the
    /// group is empty and with `Busy` while a previous request is
    /// unresolved; otherwise it fans out to every member and the aggregate
    /// starts waiting from zero (or completes at once when no member has an
    /// acknowledgement window).
    pub fn write_need_ack(&mut self, data: &Vec<u8>) -> (r: Result<WritePlan, TransportError>)
        requires
            group_wf(*old(self)),
        ensures
            group_wf(*final(self)),
            final(self).members == old(self).members,
            r is Ok <==> spec_accepts(*old(self)),
            old(self).members@.len() == 0 ==> (r matches Err(e) && e == TransportError::NotFound),
            old(self).members@.len() > 0 && old(self).ack_counter != -1 ==> (r matches Err(e)
                && e == TransportError::Busy),
            r is Err ==> *final(self) == *old(self),
            r matches Ok(plan) ==> {
                &&& *final(self) == spec_after_write_need_ack(*old(self))
                &&& plan.need_ack
                &&& plan.data@ == data@
                &&& plan.targets@.len() == old(self).members@.len()
                &&& forall|i: int|
                    0 <= i < plan.targets@.len() ==> plan.targets@[i]@
                        == old(self).members@[i].path@
            },
    {
        if self.members.len() == 0 {
            return Err(TransportError::NotFound);
        }
        if self.ack_counter != -1 {
            return Err(TransportError::Busy);
        }
        let targets = self.member_paths();
        if self.need_ack_members() > 0 {
            self.ack_counter = 0;
        } else {
            self.ack_counter = -1;
        }
        Ok(WritePlan { data: data.clone(), need_ack: true, targets })
    }

    /// Feed one upstream link event into the aggregate. Acknowledgements are
    /// authoritative for completion; a member timeout aborts the outstanding
    /// request; heartbeat events and closes never touch the counter; and an
    /// acknowledgement while idle is a late straggler, ignored by design.
    pub fn on_link_event(&mut self, event: FromPortEvent) -> (r: AckOutcome)
        requires
            group_wf(*old(self)),
        ensures
            group_wf(*final(self)),
            final(self).members == old(self).members,
            event == FromPortEvent::Ack ==> (*final(self), r) == spec_ack_step(*old(self)),
            event == FromPortEvent::Timeout ==> (*final(self), r) == spec_timeout_step(*old(self)),
            event != FromPortEvent::Ack && event != FromPortEvent::Timeout ==> *final(self)
                == *old(self) && r == AckOutcome::Ignored,
    {
        proof {
            lemma_need_ack_count_bounds(self.members@);
        }
        match event {
            FromPortEvent::Ack => {
                if self.ack_counter == -1 {
                    AckOutcome::LateAck
                } else {
                    let needed = self.need_ack_members();
                    if (self.ack_counter as usize) + 1 >= needed {
                        self.ack_counter = -1;
                        AckOutcome::Finished
                    } else {
                        self.ack_counter = self.ack_counter + 1;
                        AckOutcome::Counting
                    }
                }
            }
            FromPortEvent::Timeout => {
                if self.ack_counter >= 0 {
                    self.ack_counter = -1;
                    AckOutcome::Aborted
                } else {
                    AckOutcome::Ignored
                }
            }
            _ => AckOutcome::Ignored,
        }
    }
}

/// The group reached by `k` member acknowledgements in a row.
pub open spec fn apply_acks(g: Group, k: nat) -> Group
    decreases k,
{
    if k == 0 {
        g
    } else {
        spec_ack_step(apply_acks(g, (k - 1) as nat)).0
    }
}

/// Acknowledgements accumulate one by one while fewer than the required
/// number have been observed.
pub proof fn lemma_apply_acks_counter(g: Group, k: nat)
    requires
        group_wf(g),
        g.ack_counter == 0,
        k < need_ack_count(g.members@),
    ensures
        group_wf(apply_acks(g, k)),
        apply_acks(g, k).members == g.members,
        apply_acks(g, k).ack_counter == k,
    decreases k,
{
    lemma_need_ack_count_bounds(g.members@);
    if k > 0 {
        lemma_apply_acks_counter(g, (k - 1) as nat);
    }
}

/// An accepted fan-out completes exactly at the Nth member
/// acknowledgement, N being the number of members that take part in
/// acknowledgement waits: each of the first N-1 merely counts, the Nth
/// yields `Finished` and returns the group to idle, and any later
/// acknowledgement is a late straggler that never re-triggers completion.
pub proof fn lemma_finishes_exactly_at_nth(g: Group)
    requires
        group_wf(g),
        g.ack_counter == 0,
        need_ack_count(g.members@) > 0,
    ensures
        forall|k: nat|
            k < need_ack_count(g.members@) - 1 ==> #[trigger] spec_ack_step(
                apply_acks(g, k),
            ).1 == AckOutcome::Counting,
        spec_ack_step(apply_acks(g, (need_ack_count(g.members@) - 1) as nat)).1
            == AckOutcome::Finished,
        spec_ack_step(apply_acks(g, (need_ack_count(g.members@) - 1) as nat)).0.ack_counter == -1,
        spec_ack_step(
            spec_ack_step(apply_acks(g, (need_ack_count(g.members@) - 1) as nat)).0,
        ).1 == AckOutcome::LateAck,
{
    let n = need_ack_count(g.members@);
    lemma_need_ack_count_bounds(g.members@);
    assert forall|k: nat| k < n - 1 implies #[trigger] spec_ack_step(apply_acks(g, k)).1
        == AckOutcome::Counting by {
        lemma_apply_acks_counter(g, k);
    }
    lemma_apply_acks_counter(g, (n - 1) as nat);
}

/// A second acknowledgement-requiring write issued while the first is
/// unresolved is rejected as busy; once the aggregate resolves — by the
/// final acknowledgement or by a timeout aborting the request — a new
/// request is accepted again.
pub proof fn lemma_busy_serialization(g: Group, h: Group)
    requires
        group_wf(g),
        g.members@.len() > 0,
        g.ack_counter == -1,
        need_ack_count(g.members@) > 0,
        group_wf(h),
        h.members@.len() > 0,
        h.ack_counter >= 0,
    ensures
        spec_accepts(g),
        !spec_accepts(spec_after_write_need_ack(g)),
        spec_ack_step(h).1 == AckOutcome::Finished ==> spec_accepts(spec_ack_step(h).0),
        spec_timeout_step(h).1 == AckOutcome::Aborted ==> spec_accepts(spec_timeout_step(h).0),
{
}

} // verus!
