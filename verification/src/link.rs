//! One managed link entry and its corrective state machine.

use vstd::prelude::*;
use crate::context::Context;
use crate::probe::FsProbe;
use crate::probe::classify_spec;
use crate::state::PathState;

verus! {

/// The corrective action that an entry's initial state calls for.
#[derive(Debug, PartialEq, Eq)]
pub enum ApplyAction {
    /// Create parent directories, then create the link (`Missing`).
    Create,
    /// Remove the existing link first, then create it anew (`Broken`
    /// and `BadLink`).
    Recreate,
    /// Leave the entry alone (`Fine`, `Conflict`, `Error`): either
    /// nothing is wrong, the prior probe already failed, or a real
    /// file sits there and deleting user data is not this tool's
    /// decision.
    Leave,
}

/// How one attempt to create the link ended. The failure variants
/// carry the failing operation's message.
#[derive(Debug, PartialEq, Eq)]
pub enum CreateEvent {
    /// Creating the parent directories failed; the link itself was
    /// never attempted.
    DirFailed(String),
    /// The directories were in place but creating the link failed.
    LinkFailed(String),
    /// Directories and link were both created.
    Created,
}

/// How one full corrective attempt for an entry ended.
#[derive(Debug, PartialEq, Eq)]
pub enum ApplyEvent {
    /// Any removal that the action required has succeeded, and the
    /// creation attempt ended as the payload says.
    Create(CreateEvent),
    /// Removing the existing link failed; nothing further was
    /// attempted.
    RemoveFailed(String),
}

/// The action that each initial state calls for.
pub open spec fn plan_spec(s: PathState) -> ApplyAction {
    match s {
        PathState::Missing => ApplyAction::Create,
        PathState::Broken => ApplyAction::Recreate,
        PathState::BadLink => ApplyAction::Recreate,
        PathState::Fine => ApplyAction::Leave,
        PathState::Conflict => ApplyAction::Leave,
        PathState::Error(_) => ApplyAction::Leave,
    }
}

/// The state recorded for a creation attempt that ended as `ev` says.
pub open spec fn create_result_spec(ev: CreateEvent) -> PathState {
    match ev {
        CreateEvent::DirFailed(m) => PathState::Error(m),
        CreateEvent::LinkFailed(m) => PathState::Error(m),
        CreateEvent::Created => PathState::Fine,
    }
}

/// The state recorded for a corrective attempt that ended as `ev`
/// says.
pub open spec fn apply_result_spec(ev: ApplyEvent) -> PathState {
    match ev {
        ApplyEvent::Create(ce) => create_result_spec(ce),
        ApplyEvent::RemoveFailed(m) => PathState::Error(m),
    }
}

/// One managed path with its classified state.
///
/// `new_state` is set exactly once, and only when a corrective attempt
/// was actually made; it stays absent in a dry run and for entries
/// whose initial state calls for no action.
#[derive(Debug, PartialEq, Eq)]
pub struct Link {
    pub state: PathState,
    pub new_state: Option<PathState>,
    pub path: String,
}

impl Link {
    /// The state an entry should be reported under: the result of its
    /// corrective attempt when one was made, its initial state
    /// otherwise.
    pub open spec fn effective_spec(self) -> PathState {
        match self.new_state {
            Some(s) => s,
            None => self.state,
        }
    }

    /// Builds the entry for one configured path from its probe
    /// snapshot, classified but not yet acted on.
    pub fn new(path: String, context: &Context, probe: FsProbe) -> (l: Link)
        ensures
            l.path == path,
            l.state == classify_spec(probe),
            l.new_state is None,
    {
        let state = context.state_for_path(probe);
        Link { state, new_state: None, path }
    }

    /// The corrective action this entry's initial state calls for.
    pub fn plan(&self) -> (a: ApplyAction)
        ensures
            a == plan_spec(self.state),
    {
        match &self.state {
            PathState::Missing => ApplyAction::Create,
            PathState::Broken => ApplyAction::Recreate,
            PathState::BadLink => ApplyAction::Recreate,
            PathState::Fine => ApplyAction::Leave,
            PathState::Conflict => ApplyAction::Leave,
            PathState::Error(_) => ApplyAction::Leave,
        }
    }

    /// Records how the creation attempt for this entry ended: `Fine`
    /// when both steps succeeded, the failing step's message as
    /// `Error` otherwise.
    pub fn create_link(&mut self, event: CreateEvent)
        ensures
            final(self).state == old(self).state,
            final(self).path == old(self).path,
            final(self).new_state == Some(create_result_spec(event)),
    {
        self.new_state = Some(
            match event {
                CreateEvent::DirFailed(m) => PathState::Error(m),
                CreateEvent::LinkFailed(m) => PathState::Error(m),
                CreateEvent::Created => PathState::Fine,
            },
        );
    }

    /// Records how the corrective attempt for this entry ended.
    ///
    /// Only an entry whose state calls for an action may be applied,
    /// and only once; a `Create` action has no removal step, so it
    /// cannot end in a removal failure. The recorded state is `Fine`
    /// exactly when every step succeeded.
    pub fn apply(&mut self, event: ApplyEvent)
        requires
            plan_spec(old(self).state) != ApplyAction::Leave,
            old(self).new_state is None,
            plan_spec(old(self).state) == ApplyAction::Create ==> !(event is RemoveFailed),
        ensures
            final(self).state == old(self).state,
            final(self).path == old(self).path,
            final(self).new_state == Some(apply_result_spec(event)),
    {
        match event {
            ApplyEvent::Create(ce) => self.create_link(ce),
            ApplyEvent::RemoveFailed(m) => {
                self.new_state = Some(PathState::Error(m));
            },
        }
    }

    /// The characters of this entry's report line: the initial state
    /// name, an arrow to the recorded result when an attempt was
    /// made, then the path.
    pub open spec fn render_spec(self) -> Seq<char> {
        match self.new_state {
            Some(ns) => self.state.label_spec() + seq![' ', '-', '>', ' '] + ns.label_spec()
                + seq![' '] + self.path@,
            None => self.state.label_spec() + seq![' '] + self.path@,
        }
    }

    /// One plain-text report line for this entry.
    pub fn render(&self) -> (r: String)
        ensures
            r@ == self.render_spec(),
    {
        let mut s = self.state.label();
        match &self.new_state {
            Some(ns) => {
                s.append(" -> ");
                let lab = ns.label();
                s.append(lab.as_str());
                s.append(" ");
                s.append(self.path.as_str());
                proof {
                    reveal_strlit(" -> ");
                    reveal_strlit(" ");
                    assert(s@ =~= self.render_spec());
                }
            },
            None => {
                s.append(" ");
                s.append(self.path.as_str());
                proof {
                    reveal_strlit(" ");
                    assert(s@ =~= self.render_spec());
                }
            },
        }
        s
    }

    /// The state this entry is reported under.
    pub fn effective_state(&self) -> (s: &PathState)
        ensures
            *s == self.effective_spec(),
    {
        match &self.new_state {
            Some(s) => s,
            None => &self.state,
        }
    }
}

} // verus!
