//! The layout session once it is running: the table of group names, the
//! current group and the layout name cached for it, and how a change event
//! moves them.
use vstd::prelude::*;

verus! {

/// How many layout groups the keyboard extension knows.
pub const GROUP_SLOTS: usize = 4;

/// Why a session could not be built or could not follow a change.
#[derive(Clone, Debug, PartialEq, Eq)]
pub enum SessionError {
    /// The server does not offer the keyboard extension at version 1.0 or later.
    Unsupported { supported: bool, major: u16, minor: u16 },
    /// The server reported more group names than there are group slots.
    TooManyGroups { count: usize },
    /// A group index outside the table of group names.
    GroupOutOfRange { group: u8, len: usize },
    /// A reply that does not answer the request the startup is waiting on.
    UnexpectedReply,
}

/// A message the server pushed on the connection, as far as the session cares.
#[derive(Clone, Copy, Debug, PartialEq, Eq, Structural)]
pub enum Event {
    /// The keyboard extension reports a new current group.
    GroupChanged { group: u8 },
    /// Anything else.
    Other,
}

/// What a wait for a change does after an event.
#[derive(Clone, Copy, Debug, PartialEq, Eq, Structural)]
pub enum WaitStep {
    /// The current group changed: the wait is over.
    Changed,
    /// The event was of no interest: wait for the next one.
    KeepWaiting,
}

/// The group names reported by the server, one per group slot; a slot without
/// a name holds the empty string.
pub struct GroupNames {
    names: Vec<String>,
}

/// The table built from the names that were resolved, in group order: the
/// slots past them stay empty.
pub open spec fn padded_names(resolved: Seq<Seq<char>>) -> Seq<Seq<char>> {
    Seq::new(
        GROUP_SLOTS as nat,
        |i: int|
            if i < resolved.len() {
                resolved[i]
            } else {
                Seq::<char>::empty()
            },
    )
}

/// The views of a sequence of strings.
pub open spec fn views_of(v: Seq<String>) -> Seq<Seq<char>> {
    v.map_values(|s: String| s@)
}

impl View for GroupNames {
    type V = Seq<Seq<char>>;

    closed spec fn view(&self) -> Seq<Seq<char>> {
        views_of(self.names@)
    }
}

impl GroupNames {
    /// One name per group slot.
    pub closed spec fn wf(&self) -> bool {
        self.names@.len() == GROUP_SLOTS
    }

    /// Builds the table from the names resolved for the groups, in group
    /// order. More names than group slots is an error.
    pub fn from_resolved(resolved: &Vec<String>) -> (r: Result<GroupNames, SessionError>)
        ensures
            resolved@.len() <= GROUP_SLOTS <==> (r is Ok),
            r matches Ok(g) ==> g.wf() && g@ == padded_names(views_of(resolved@)),
            r matches Err(e) ==> e == (SessionError::TooManyGroups { count: resolved@.len() as usize }),
    {
        if resolved.len() > GROUP_SLOTS {
            return Err(SessionError::TooManyGroups { count: resolved.len() });
        }
        let mut names: Vec<String> = Vec::new();
        let mut i: usize = 0;
        while i < GROUP_SLOTS
            invariant
                i <= GROUP_SLOTS,
                resolved@.len() <= GROUP_SLOTS,
                names@.len() == i,
                forall|j: int|
                    0 <= j < i ==> #[trigger] names@[j]@ == padded_names(views_of(resolved@))[j],
            decreases GROUP_SLOTS - i,
        {
            if i < resolved.len() {
                names.push(resolved[i].clone());
            } else {
                names.push(String::new());
            }
            i = i + 1;
        }
        let g = GroupNames { names };
        assert(g@ =~= padded_names(views_of(resolved@)));
        Ok(g)
    }

    /// How many group slots the table has.
    pub fn len(&self) -> (r: usize)
        requires
            self.wf(),
        ensures
            r == self@.len(),
            r == GROUP_SLOTS,
    {
        self.names.len()
    }

    /// The name of a group, where the index is inside the table.
    pub fn name(&self, group: usize) -> (r: Option<&String>)
        requires
            self.wf(),
        ensures
            group < self@.len() <==> (r is Some),
            r matches Some(s) ==> s@ == self@[group as int],
    {
        if group < self.names.len() {
            Some(&self.names[group])
        } else {
            None
        }
    }
}

/// A running session: the group names, the current group and the layout name
/// of that group, which is what the layout parser is handed.
pub struct Session {
    names: GroupNames,
    group: usize,
    info: String,
}

impl Session {
    /// The table of group names.
    pub closed spec fn table(&self) -> Seq<Seq<char>> {
        self.names@
    }

    /// The index of the current group.
    pub closed spec fn group(&self) -> nat {
        self.group as nat
    }

    /// The cached layout name.
    pub closed spec fn info(&self) -> Seq<char> {
        self.info@
    }

    /// The current group is inside the table and the cached layout name is
    /// its name.
    pub closed spec fn wf(&self) -> bool {
        &&& self.names.wf()
        &&& self.group < self.names@.len()
        &&& self.info@ == self.names@[self.group as int]
    }

    /// Starts a session on the given table at the group the server reported.
    /// A group outside the table is an error.
    pub fn new(names: GroupNames, group: u8) -> (r: Result<Session, SessionError>)
        requires
            names.wf(),
        ensures
            (group as int) < names@.len() <==> (r is Ok),
            r matches Ok(s) ==> s.wf() && s.table() == names@ && s.group() == group as nat
                && s.info() == names@[group as int],
            r matches Err(e) ==> e == (SessionError::GroupOutOfRange {
                group,
                len: names@.len() as usize,
            }),
    {
        let len = names.len();
        match names.name(group as usize) {
            Some(n) => {
                let info = n.clone();
                Ok(Session { names, group: group as usize, info })
            },
            None => Err(SessionError::GroupOutOfRange { group, len }),
        }
    }

    /// The cached layout name of the current group. Does no I/O and does not
    /// fail.
    pub fn get_info(&self) -> (r: Result<String, SessionError>)
        requires
            self.wf(),
        ensures
            r matches Ok(s) && (s@ == self.info()),
    {
        Ok(self.info.clone())
    }

    /// The index of the current group.
    pub fn current_group(&self) -> (r: usize)
        ensures
            r == self.group(),
    {
        self.group
    }

    /// Takes an event that arrived while waiting for a change. A group change
    /// inside the table moves the current group and its cached name and ends
    /// the wait; a group outside the table is an error that leaves the session
    /// as it was; any other event is dropped and the wait goes on.
    pub fn on_event(&mut self, ev: Event) -> (r: Result<WaitStep, SessionError>)
        requires
            old(self).wf(),
        ensures
            final(self).wf(),
            reacts(*old(self), ev, *final(self), r),
    {
        match ev {
            Event::Other => Ok(WaitStep::KeepWaiting),
            Event::GroupChanged { group } => {
                let len = self.names.len();
                match self.names.name(group as usize) {
                    Some(n) => {
                        self.info = n.clone();
                        self.group = group as usize;
                        Ok(WaitStep::Changed)
                    },
                    None => Err(SessionError::GroupOutOfRange { group, len }),
                }
            },
        }
    }
}

/// How a session answers an event: `before` and `after` are the session
/// around the call, `r` what the call returned.
pub open spec fn reacts(
    before: Session,
    ev: Event,
    after: Session,
    r: Result<WaitStep, SessionError>,
) -> bool {
    match ev {
        Event::Other => r == Ok::<WaitStep, SessionError>(WaitStep::KeepWaiting) && after == before,
        Event::GroupChanged { group } => if (group as int) < before.table().len() {
            &&& r == Ok::<WaitStep, SessionError>(WaitStep::Changed)
            &&& after.table() == before.table()
            &&& after.group() == group as nat
            &&& after.info() == before.table()[group as int]
        } else {
            &&& r == Err::<WaitStep, SessionError>(
                SessionError::GroupOutOfRange { group, len: before.table().len() as usize },
            )
            &&& after == before
        },
    }
}

/// After a change event that reports a group inside the table, the wait ends
/// and the cached layout name, which `get_info` hands out, is that group's
/// name.
pub proof fn lemma_info_follows_change(
    before: Session,
    group: u8,
    after: Session,
    r: Result<WaitStep, SessionError>,
)
    requires
        before.wf(),
        (group as int) < before.table().len(),
        reacts(before, Event::GroupChanged { group }, after, r),
    ensures
        r == Ok::<WaitStep, SessionError>(WaitStep::Changed),
        after.group() == group as nat,
        after.info() == before.table()[group as int],
        after.table() == before.table(),
{
}

/// An event other than a group change never ends a wait for a change, and
/// leaves the session as it was.
pub proof fn lemma_other_event_keeps_waiting(
    before: Session,
    after: Session,
    r: Result<WaitStep, SessionError>,
)
    requires
        reacts(before, Event::Other, after, r),
    ensures
        r == Ok::<WaitStep, SessionError>(WaitStep::KeepWaiting),
        after == before,
{
}

/// A change event that reports a group at or past the end of the table is an
/// error, and the table is not read at that index: the session stays as it
/// was.
pub proof fn lemma_out_of_range_group_is_error(
    before: Session,
    group: u8,
    after: Session,
    r: Result<WaitStep, SessionError>,
)
    requires
        before.wf(),
        (group as int) >= before.table().len(),
        reacts(before, Event::GroupChanged { group }, after, r),
    ensures
        r is Err,
        after == before,
{
}

} // verus!
