//! The startup handshake of a session, as a state machine: the driver sends
//! the request the machine asks for, hands back the server's reply, and gets
//! the next stage, the finished session or the error that ends the startup.
use vstd::prelude::*;
use crate::session::{GroupNames, Session, SessionError, padded_names, views_of, GROUP_SLOTS};

verus! {

/// The oldest version of the keyboard extension the session works with.
pub const WANTED_MAJOR: u16 = 1;

/// The minor part of the oldest version the session works with.
pub const WANTED_MINOR: u16 = 0;

/// A request the startup sends to the server.
#[derive(Clone, Copy, Debug, PartialEq, Eq, Structural)]
pub enum Request {
    /// Asks for the keyboard extension at this version or later.
    UseExtension { wanted_major: u16, wanted_minor: u16 },
    /// Asks for group-state change events of the core keyboard. No reply
    /// comes: the driver answers with `Reply::Sent` once it is queued.
    SelectGroupEvents,
    /// Asks for the name identifiers of the core keyboard's groups.
    GetGroupNames,
    /// Asks for the text of one name identifier.
    GetAtomName { atom: u32 },
    /// Asks for the core keyboard's state, which holds the current group.
    GetState,
}

/// A reply of the server, in the values the startup reads from it.
pub enum Reply {
    /// Whether the wanted version is supported, and the server's version.
    Extension { supported: bool, major: u16, minor: u16 },
    /// A request without a reply was queued.
    Sent,
    /// The name identifiers of the groups, in group order.
    GroupNames { atoms: Vec<u32> },
    /// The text of a name identifier.
    AtomName { name: String },
    /// The current group.
    State { group: u8 },
}

/// The mathematical value of a reply.
pub enum ReplyView {
    Extension { supported: bool, major: u16, minor: u16 },
    Sent,
    GroupNames { atoms: Seq<u32> },
    AtomName { name: Seq<char> },
    State { group: u8 },
}

impl View for Reply {
    type V = ReplyView;

    open spec fn view(&self) -> ReplyView {
        match self {
            Reply::Extension { supported, major, minor } => ReplyView::Extension {
                supported: *supported,
                major: *major,
                minor: *minor,
            },
            Reply::Sent => ReplyView::Sent,
            Reply::GroupNames { atoms } => ReplyView::GroupNames { atoms: atoms@ },
            Reply::AtomName { name } => ReplyView::AtomName { name: name@ },
            Reply::State { group } => ReplyView::State { group: *group },
        }
    }
}

/// A stage of the startup that waits on a reply.
pub enum Startup {
    /// Waiting for the answer on the keyboard extension.
    Negotiating,
    /// Subscribing to group-state change events.
    Subscribing,
    /// Waiting for the group name identifiers.
    FetchingNames,
    /// Resolving the name identifiers one by one, in group order.
    Resolving { atoms: Vec<u32>, resolved: Vec<String> },
    /// Waiting for the current group, with the table of names complete.
    FetchingState { names: GroupNames },
}

/// The mathematical value of a stage.
pub enum Stage {
    Negotiating,
    Subscribing,
    FetchingNames,
    Resolving { atoms: Seq<u32>, resolved: Seq<Seq<char>> },
    FetchingState { names: Seq<Seq<char>> },
}

impl View for Startup {
    type V = Stage;

    open spec fn view(&self) -> Stage {
        match self {
            Startup::Negotiating => Stage::Negotiating,
            Startup::Subscribing => Stage::Subscribing,
            Startup::FetchingNames => Stage::FetchingNames,
            Startup::Resolving { atoms, resolved } => Stage::Resolving {
                atoms: atoms@,
                resolved: views_of(resolved@),
            },
            Startup::FetchingState { names } => Stage::FetchingState { names: names@ },
        }
    }
}

/// Where a reply takes the startup.
pub enum Progress {
    /// Another request and reply are needed.
    Next(Startup),
    /// The session is ready.
    Done(Session),
}

/// The mathematical value of where a reply takes the startup.
pub enum ProgressView {
    Next(Stage),
    Done { table: Seq<Seq<char>>, group: nat, info: Seq<char> },
}

impl View for Progress {
    type V = ProgressView;

    open spec fn view(&self) -> ProgressView {
        match self {
            Progress::Next(s) => ProgressView::Next(s@),
            Progress::Done(s) => ProgressView::Done { table: s.table(), group: s.group(), info: s.info() },
        }
    }
}

/// The server offers the extension at the wanted version or a later one.
pub open spec fn version_ok(supported: bool, major: u16, minor: u16) -> bool {
    &&& supported
    &&& (major > WANTED_MAJOR || (major == WANTED_MAJOR && minor >= WANTED_MINOR))
}

/// The request a stage sends.
pub open spec fn request_of(stage: Stage) -> Request {
    match stage {
        Stage::Negotiating => Request::UseExtension {
            wanted_major: WANTED_MAJOR,
            wanted_minor: WANTED_MINOR,
        },
        Stage::Subscribing => Request::SelectGroupEvents,
        Stage::FetchingNames => Request::GetGroupNames,
        Stage::Resolving { atoms, resolved } => Request::GetAtomName { atom: atoms[resolved.len() as int] },
        Stage::FetchingState { names } => Request::GetState,
    }
}

/// The stage after the names of these identifiers were resolved.
pub open spec fn after_names(atoms: Seq<u32>, resolved: Seq<Seq<char>>) -> Stage {
    if resolved.len() == atoms.len() {
        Stage::FetchingState { names: padded_names(resolved) }
    } else {
        Stage::Resolving { atoms, resolved }
    }
}

/// Where a reply takes a stage, or the error that ends the startup.
pub open spec fn step(stage: Stage, reply: ReplyView) -> Result<ProgressView, SessionError> {
    match (stage, reply) {
        (Stage::Negotiating, ReplyView::Extension { supported, major, minor }) =>
            if version_ok(supported, major, minor) {
                Ok(ProgressView::Next(Stage::Subscribing))
            } else {
                Err(SessionError::Unsupported { supported, major, minor })
            },
        (Stage::Subscribing, ReplyView::Sent) => Ok(ProgressView::Next(Stage::FetchingNames)),
        (Stage::FetchingNames, ReplyView::GroupNames { atoms }) =>
            if atoms.len() > GROUP_SLOTS {
                Err(SessionError::TooManyGroups { count: atoms.len() as usize })
            } else {
                Ok(ProgressView::Next(after_names(atoms, Seq::empty())))
            },
        (Stage::Resolving { atoms, resolved }, ReplyView::AtomName { name }) =>
            Ok(ProgressView::Next(after_names(atoms, resolved.push(name)))),
        (Stage::FetchingState { names }, ReplyView::State { group }) =>
            if (group as int) < names.len() {
                Ok(ProgressView::Done { table: names, group: group as nat, info: names[group as int] })
            } else {
                Err(SessionError::GroupOutOfRange { group, len: names.len() as usize })
            },
        _ => Err(SessionError::UnexpectedReply),
    }
}

/// The view of what a step returned.
pub open spec fn progress_view(r: Result<Progress, SessionError>) -> Result<ProgressView, SessionError> {
    match r {
        Ok(p) => Ok(p@),
        Err(e) => Err(e),
    }
}

impl Startup {
    /// Every stage is consistent: the identifiers fit the group slots and some
    /// are still to resolve; the table of names is complete.
    pub open spec fn wf(&self) -> bool {
        match self {
            Startup::Resolving { atoms, resolved } => {
                &&& atoms@.len() <= GROUP_SLOTS
                &&& resolved@.len() < atoms@.len()
            },
            Startup::FetchingState { names } => names.wf(),
            _ => true,
        }
    }

    /// The first stage: asking for the keyboard extension.
    pub fn new() -> (r: Startup)
        ensures
            r.wf(),
            r@ == Stage::Negotiating,
    {
        Startup::Negotiating
    }

    /// The request this stage sends.
    pub fn request(&self) -> (r: Request)
        requires
            self.wf(),
        ensures
            r == request_of(self@),
    {
        match self {
            Startup::Negotiating => Request::UseExtension {
                wanted_major: WANTED_MAJOR,
                wanted_minor: WANTED_MINOR,
            },
            Startup::Subscribing => Request::SelectGroupEvents,
            Startup::FetchingNames => Request::GetGroupNames,
            Startup::Resolving { atoms, resolved } => Request::GetAtomName { atom: atoms[resolved.len()] },
            Startup::FetchingState { .. } => Request::GetState,
        }
    }

    /// Takes the server's reply to this stage's request. A reply of another
    /// kind than the request asks for ends the startup with an error, as do a
    /// server without the wanted extension version, more group names than
    /// group slots, and a current group outside the table.
    pub fn on_reply(self, reply: Reply) -> (r: Result<Progress, SessionError>)
        requires
            self.wf(),
        ensures
            progress_view(r) == step(self@, reply@),
            r matches Ok(Progress::Next(s)) ==> s.wf(),
            r matches Ok(Progress::Done(s)) ==> s.wf(),
    {
        match (self, reply) {
            (Startup::Negotiating, Reply::Extension { supported, major, minor }) => {
                if version_supported(supported, major, minor) {
                    Ok(Progress::Next(Startup::Subscribing))
                } else {
                    Err(SessionError::Unsupported { supported, major, minor })
                }
            },
            (Startup::Subscribing, Reply::Sent) => Ok(Progress::Next(Startup::FetchingNames)),
            (Startup::FetchingNames, Reply::GroupNames { atoms }) => {
                if atoms.len() > GROUP_SLOTS {
                    Err(SessionError::TooManyGroups { count: atoms.len() })
                } else {
                    let resolved: Vec<String> = Vec::new();
                    proof {
                        assert(views_of(resolved@) =~= Seq::<Seq<char>>::empty());
                    }
                    Ok(Progress::Next(resolving_or_done(atoms, resolved)))
                }
            },
            (Startup::Resolving { atoms, resolved }, Reply::AtomName { name }) => {
                let mut resolved = resolved;
                let ghost before = views_of(resolved@);
                let ghost name_view = name@;
                resolved.push(name);
                proof {
                    assert(views_of(resolved@) =~= before.push(name_view));
                }
                Ok(Progress::Next(resolving_or_done(atoms, resolved)))
            },
            (Startup::FetchingState { names }, Reply::State { group }) => {
                match Session::new(names, group) {
                    Ok(session) => Ok(Progress::Done(session)),
                    Err(e) => Err(e),
                }
            },
            _ => Err(SessionError::UnexpectedReply),
        }
    }
}

/// A server that does not support the extension, or offers only a version
/// before the wanted one, ends the startup with an error: no session comes out
/// of the negotiation.
pub proof fn lemma_unsupported_extension_fails(supported: bool, major: u16, minor: u16)
    requires
        !supported || major < WANTED_MAJOR || (major == WANTED_MAJOR && minor < WANTED_MINOR),
    ensures
        step(Stage::Negotiating, ReplyView::Extension { supported, major, minor })
            == Err::<ProgressView, SessionError>(SessionError::Unsupported { supported, major, minor }),
{
}

/// A session comes out of the startup only at its last stage, once the table
/// of names is complete and the current group lies inside it.
pub proof fn lemma_session_only_at_last_stage(stage: Stage, reply: ReplyView)
    requires
        step(stage, reply) matches Ok(ProgressView::Done { .. }),
    ensures
        stage matches Stage::FetchingState { names } && reply matches ReplyView::State { group }
            && (group as int) < names.len(),
{
}

/// Whether the server offers the extension at the wanted version or later.
pub fn version_supported(supported: bool, major: u16, minor: u16) -> (r: bool)
    ensures
        r == version_ok(supported, major, minor),
{
    supported && (major > WANTED_MAJOR || (major == WANTED_MAJOR && minor >= WANTED_MINOR))
}

/// The next stage once these names were resolved: more resolving, or the
/// fetch of the current group with the table complete.
fn resolving_or_done(atoms: Vec<u32>, resolved: Vec<String>) -> (r: Startup)
    requires
        atoms@.len() <= GROUP_SLOTS,
        resolved@.len() <= atoms@.len(),
    ensures
        r.wf(),
        r@ == after_names(atoms@, views_of(resolved@)),
{
    if resolved.len() == atoms.len() {
        match GroupNames::from_resolved(&resolved) {
            Ok(names) => Startup::FetchingState { names },
            Err(_) => {
                proof {
                    assert(false);
                }
                Startup::Negotiating
            },
        }
    } else {
        Startup::Resolving { atoms, resolved }
    }
}

} // verus!
