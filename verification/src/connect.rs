//! The connection establisher: the order of the steps that lead from a
//! profile to a published session, and what each failure means.
//!
//! The caller performs each [`ConnectAction`] against the transport and
//! reports what came of it; [`Connector::advance`] says what is next. Only a
//! run in which every step succeeded yields an [`Established`] connection,
//! and only that can be published in the registry.

use vstd::prelude::*;
use vstd::string::*;
use crate::errors::ConnectError;
use crate::profile::{Credential, SshProfile};
use crate::registry::{SshManager, SshSession};
use crate::text::joined;

verus! {

/// The terminal type asked of the remote host.
pub const TERMINAL_TYPE: &'static str = "xterm-256color";

/// The answer to a connection request under an identifier whose session is
/// connected already.
pub const ALREADY_CONNECTED: &'static str = "Already connected";

/// Longest time that one blocking step of an attempt may take, in
/// milliseconds. The caller gives up on a step that takes longer and reports
/// it as failed.
pub const STEP_TIMEOUT_MS: u32 = 30000;

/// The steps of establishing a connection, in the order in which they are
/// taken.
#[derive(Clone, Copy, PartialEq, Eq, Debug, Structural)]
pub enum ConnectStage {
    /// Open the transport connection to the host.
    Dial,
    /// Set up the transport's session object.
    CreateSession,
    /// Perform the protocol handshake.
    Handshake,
    /// Authenticate with the profile's credential.
    Authenticate,
    /// Ask the transport whether the session really is authenticated.
    VerifyAuthenticated,
    /// Open a session channel.
    OpenChannel,
    /// Request a pseudo-terminal.
    RequestPty,
    /// Start the remote shell.
    StartShell,
    /// Merge the secondary output stream into the primary one.
    MergeStreams,
    /// Switch to non-blocking mode, after all the blocking setup.
    SetNonBlocking,
}

/// What a connection attempt needs to know, fixed when it starts.
pub struct ConnectPlan {
    pub session_id: String,
    pub name: String,
    pub host: String,
    pub port: u16,
    pub username: String,
    pub credential: Credential,
}

/// What the caller is to do against the transport.
#[derive(Debug, Clone, PartialEq, Eq)]
pub enum ConnectAction {
    Dial { host: String, port: u16 },
    CreateSession,
    Handshake,
    AuthPassword { username: String, password: String },
    AuthKeyFile { username: String, key_path: String },
    VerifyAuthenticated,
    OpenChannel,
    RequestPty { terminal: &'static str },
    StartShell,
    MergeStreams,
    SetNonBlocking,
}

/// What came of an action.
#[derive(Debug, Clone, PartialEq, Eq)]
pub enum StepOutcome {
    /// It succeeded; for the verification step, the session is authenticated.
    Succeeded,
    /// It failed, with the transport's description; for the verification
    /// step, the session is not authenticated.
    Failed(String),
}

/// The stage that follows `stage`; `None` after the last one.
pub open spec fn stage_after(stage: ConnectStage) -> Option<ConnectStage> {
    match stage {
        ConnectStage::Dial => Some(ConnectStage::CreateSession),
        ConnectStage::CreateSession => Some(ConnectStage::Handshake),
        ConnectStage::Handshake => Some(ConnectStage::Authenticate),
        ConnectStage::Authenticate => Some(ConnectStage::VerifyAuthenticated),
        ConnectStage::VerifyAuthenticated => Some(ConnectStage::OpenChannel),
        ConnectStage::OpenChannel => Some(ConnectStage::RequestPty),
        ConnectStage::RequestPty => Some(ConnectStage::StartShell),
        ConnectStage::StartShell => Some(ConnectStage::MergeStreams),
        ConnectStage::MergeStreams => Some(ConnectStage::SetNonBlocking),
        ConnectStage::SetNonBlocking => None,
    }
}

/// The action that `stage` asks for under `plan`.
pub open spec fn action_at(plan: ConnectPlan, stage: ConnectStage) -> ConnectAction {
    match stage {
        ConnectStage::Dial => ConnectAction::Dial { host: plan.host, port: plan.port },
        ConnectStage::CreateSession => ConnectAction::CreateSession,
        ConnectStage::Handshake => ConnectAction::Handshake,
        ConnectStage::Authenticate => match plan.credential {
            Credential::Password(password) => ConnectAction::AuthPassword {
                username: plan.username,
                password,
            },
            Credential::KeyFile(key_path) => ConnectAction::AuthKeyFile {
                username: plan.username,
                key_path,
            },
        },
        ConnectStage::VerifyAuthenticated => ConnectAction::VerifyAuthenticated,
        ConnectStage::OpenChannel => ConnectAction::OpenChannel,
        ConnectStage::RequestPty => ConnectAction::RequestPty { terminal: TERMINAL_TYPE },
        ConnectStage::StartShell => ConnectAction::StartShell,
        ConnectStage::MergeStreams => ConnectAction::MergeStreams,
        ConnectStage::SetNonBlocking => ConnectAction::SetNonBlocking,
    }
}

/// The error that a failure at `stage` under `plan` comes to.
pub open spec fn failure_at(plan: ConnectPlan, stage: ConnectStage, detail: String) -> ConnectError {
    match stage {
        ConnectStage::Dial => ConnectError::Connection {
            host: plan.host,
            port: plan.port,
            detail,
        },
        ConnectStage::CreateSession => ConnectError::SessionInit(detail),
        ConnectStage::Handshake => ConnectError::Handshake(detail),
        ConnectStage::Authenticate => match plan.credential {
            Credential::Password(_) => ConnectError::PasswordAuth(detail),
            Credential::KeyFile(_) => ConnectError::KeyAuth(detail),
        },
        ConnectStage::VerifyAuthenticated => ConnectError::NotAuthenticated,
        ConnectStage::OpenChannel => ConnectError::OpenChannel(detail),
        ConnectStage::RequestPty => ConnectError::RequestPty(detail),
        ConnectStage::StartShell => ConnectError::StartShell(detail),
        ConnectStage::MergeStreams => ConnectError::MergeStreams(detail),
        ConnectStage::SetNonBlocking => ConnectError::NonBlocking(detail),
    }
}

/// A connection attempt under way.
pub struct Connector {
    plan: ConnectPlan,
    stage: ConnectStage,
}

/// A connection on which every step has succeeded, ready to be published.
pub struct Established {
    plan: ConnectPlan,
}

/// Where a connection attempt stands after a step.
pub enum ConnectProgress {
    /// Another action is due.
    Continue(Connector),
    /// Every step has succeeded.
    Ready(Established),
    /// The attempt is over; nothing was published.
    Failed(ConnectError),
}

/// How a connection request begins.
pub enum ConnectStart {
    /// A connected session exists under the identifier. Nothing is to be
    /// done, and the existing session is left alone.
    AlreadyConnected,
    /// The profile is invalid. Nothing was sent anywhere.
    Rejected(ConnectError),
    /// The attempt begins with the connector's first action.
    Proceed(Connector),
}

impl Established {
    /// The plan that was carried out.
    pub closed spec fn plan(self) -> ConnectPlan {
        self.plan
    }
}

impl Connector {
    /// The plan being carried out.
    pub closed spec fn plan(self) -> ConnectPlan {
        self.plan
    }

    /// The stage whose action is due.
    pub closed spec fn stage(self) -> ConnectStage {
        self.stage
    }

    /// The stage whose action is due.
    pub fn current_stage(&self) -> (stage: ConnectStage)
        ensures
            stage == self.stage(),
    {
        self.stage
    }

    /// The action that is due.
    pub fn action(&self) -> (action: ConnectAction)
        ensures
            action == action_at(self.plan(), self.stage()),
    {
        match self.stage {
            ConnectStage::Dial => ConnectAction::Dial {
                host: self.plan.host.clone(),
                port: self.plan.port,
            },
            ConnectStage::CreateSession => ConnectAction::CreateSession,
            ConnectStage::Handshake => ConnectAction::Handshake,
            ConnectStage::Authenticate => match &self.plan.credential {
                Credential::Password(password) => ConnectAction::AuthPassword {
                    username: self.plan.username.clone(),
                    password: password.clone(),
                },
                Credential::KeyFile(key_path) => ConnectAction::AuthKeyFile {
                    username: self.plan.username.clone(),
                    key_path: key_path.clone(),
                },
            },
            ConnectStage::VerifyAuthenticated => ConnectAction::VerifyAuthenticated,
            ConnectStage::OpenChannel => ConnectAction::OpenChannel,
            ConnectStage::RequestPty => ConnectAction::RequestPty { terminal: TERMINAL_TYPE },
            ConnectStage::StartShell => ConnectAction::StartShell,
            ConnectStage::MergeStreams => ConnectAction::MergeStreams,
            ConnectStage::SetNonBlocking => ConnectAction::SetNonBlocking,
        }
    }

    /// Takes in what came of the action that was due.
    ///
    /// A failure ends the attempt with the error of the stage. A success
    /// leads to the next stage, and after the last one to an established
    /// connection: that is the only way to one.
    pub fn advance(self, outcome: StepOutcome) -> (progress: ConnectProgress)
        ensures
            match attempt_from(self.plan(), self.stage(), seq![outcome]) {
                Attempt::Failed(error) => progress == ConnectProgress::Failed(error),
                Attempt::Pending(next) => progress matches ConnectProgress::Continue(c) && c.plan()
                    == self.plan() && c.stage() == next,
                Attempt::Established => progress matches ConnectProgress::Ready(e) && e.plan()
                    == self.plan(),
            },
    {
        proof {
            let told = seq![outcome];
            match stage_after(self.stage()) {
                Some(next) => {
                    assert(attempt_from(self.plan(), next, told.drop_first()) == Attempt::Pending(
                        next,
                    ));
                },
                None => {},
            }
            assert(attempt_from(self.plan(), self.stage(), told) == match outcome {
                StepOutcome::Failed(detail) => Attempt::Failed(
                    failure_at(self.plan(), self.stage(), detail),
                ),
                StepOutcome::Succeeded => match stage_after(self.stage()) {
                    Some(next) => Attempt::Pending(next),
                    None => Attempt::Established,
                },
            });
        }
        let Connector { plan, stage } = self;
        match outcome {
            StepOutcome::Failed(detail) => {
                let error = match stage {
                    ConnectStage::Dial => {
                        let ConnectPlan { host, port, .. } = plan;
                        ConnectError::Connection { host, port, detail }
                    },
                    ConnectStage::CreateSession => ConnectError::SessionInit(detail),
                    ConnectStage::Handshake => ConnectError::Handshake(detail),
                    ConnectStage::Authenticate => match plan.credential {
                        Credential::Password(_) => ConnectError::PasswordAuth(detail),
                        Credential::KeyFile(_) => ConnectError::KeyAuth(detail),
                    },
                    ConnectStage::VerifyAuthenticated => ConnectError::NotAuthenticated,
                    ConnectStage::OpenChannel => ConnectError::OpenChannel(detail),
                    ConnectStage::RequestPty => ConnectError::RequestPty(detail),
                    ConnectStage::StartShell => ConnectError::StartShell(detail),
                    ConnectStage::MergeStreams => ConnectError::MergeStreams(detail),
                    ConnectStage::SetNonBlocking => ConnectError::NonBlocking(detail),
                };
                ConnectProgress::Failed(error)
            },
            StepOutcome::Succeeded => {
                let next = match stage {
                    ConnectStage::Dial => Some(ConnectStage::CreateSession),
                    ConnectStage::CreateSession => Some(ConnectStage::Handshake),
                    ConnectStage::Handshake => Some(ConnectStage::Authenticate),
                    ConnectStage::Authenticate => Some(ConnectStage::VerifyAuthenticated),
                    ConnectStage::VerifyAuthenticated => Some(ConnectStage::OpenChannel),
                    ConnectStage::OpenChannel => Some(ConnectStage::RequestPty),
                    ConnectStage::RequestPty => Some(ConnectStage::StartShell),
                    ConnectStage::StartShell => Some(ConnectStage::MergeStreams),
                    ConnectStage::MergeStreams => Some(ConnectStage::SetNonBlocking),
                    ConnectStage::SetNonBlocking => None,
                };
                match next {
                    Some(stage) => ConnectProgress::Continue(Connector { plan, stage }),
                    None => ConnectProgress::Ready(Established { plan }),
                }
            },
        }
    }
}

/// The message of a successful connection to the host that the profile
/// calls `name`.
pub open spec fn connected_text(name: Seq<char>) -> Seq<char> {
    "Connected to "@ + name
}

impl<C> SshManager<C> {
    /// Begins a connection for `profile` under `session_id`.
    ///
    /// Where a connected session already exists under the identifier, nothing
    /// is to be done. Otherwise the profile is validated, before anything is
    /// sent anywhere. The registry itself is not changed here, nor by any
    /// step of the attempt: only [`SshManager::publish`] adds the session.
    pub fn connect(&self, profile: SshProfile, session_id: String) -> (start: ConnectStart)
        ensures
            self@.contains_key(session_id@) && self@[session_id@].is_connected ==> start
                is AlreadyConnected,
            !(self@.contains_key(session_id@) && self@[session_id@].is_connected) ==> match profile.selected() {
                Err(e) => start == ConnectStart::Rejected(e),
                Ok(credential) => start matches ConnectStart::Proceed(c) && c.stage()
                    == ConnectStage::Dial && c.plan() == (ConnectPlan {
                    session_id,
                    name: profile.name,
                    host: profile.host,
                    port: profile.port,
                    username: profile.username,
                    credential,
                }),
            },
    {
        if self.is_connected(session_id.as_str()) {
            return ConnectStart::AlreadyConnected;
        }
        match profile.credential() {
            Err(e) => ConnectStart::Rejected(e),
            Ok(credential) => {
                let SshProfile { name, host, port, username, .. } = profile;
                ConnectStart::Proceed(
                    Connector {
                        plan: ConnectPlan { session_id, name, host, port, username, credential },
                        stage: ConnectStage::Dial,
                    },
                )
            },
        }
    }

    /// Publishes an established connection: its record, connected and with
    /// `channel`, takes the place under the plan's identifier. The answer is
    /// the message for the caller and the record that was replaced, if any,
    /// whose channel is the caller's to close.
    pub fn publish(&mut self, established: Established, channel: C) -> (done: (
        String,
        Option<SshSession<C>>,
    ))
        ensures
            final(self)@ == old(self)@.insert(
                established.plan().session_id@,
                SshSession {
                    id: established.plan().session_id,
                    channel: Some(channel),
                    is_connected: true,
                    streaming: false,
                },
            ),
            done.0@ == connected_text(established.plan().name@),
            done.1 == if old(self)@.contains_key(established.plan().session_id@) {
                Some(old(self)@[established.plan().session_id@])
            } else {
                None
            },
    {
        let Established { plan } = established;
        let message = joined("Connected to ", plan.name.as_str());
        let record = SshSession {
            id: plan.session_id.clone(),
            channel: Some(channel),
            is_connected: true,
            streaming: false,
        };
        let replaced = self.insert(plan.session_id, record);
        (message, replaced)
    }
}

/// How a connection attempt stands.
pub enum Attempt {
    /// The action of this stage is due.
    Pending(ConnectStage),
    /// Every step has succeeded.
    Established,
    /// A step has failed.
    Failed(ConnectError),
}

/// Where an attempt under `plan` stands that was at `stage` and has since
/// been told `outcomes`, one for each action in turn. What is told after the
/// end of the attempt changes nothing.
pub open spec fn attempt_from(
    plan: ConnectPlan,
    stage: ConnectStage,
    outcomes: Seq<StepOutcome>,
) -> Attempt
    decreases outcomes.len(),
{
    if outcomes.len() == 0 {
        Attempt::Pending(stage)
    } else {
        match outcomes[0] {
            StepOutcome::Failed(detail) => Attempt::Failed(failure_at(plan, stage, detail)),
            StepOutcome::Succeeded => match stage_after(stage) {
                Some(next) => attempt_from(plan, next, outcomes.drop_first()),
                None => Attempt::Established,
            },
        }
    }
}

/// The number of steps from `stage` to the end, `stage` included.
pub open spec fn steps_left(stage: ConnectStage) -> nat {
    match stage {
        ConnectStage::Dial => 10,
        ConnectStage::CreateSession => 9,
        ConnectStage::Handshake => 8,
        ConnectStage::Authenticate => 7,
        ConnectStage::VerifyAuthenticated => 6,
        ConnectStage::OpenChannel => 5,
        ConnectStage::RequestPty => 4,
        ConnectStage::StartShell => 3,
        ConnectStage::MergeStreams => 2,
        ConnectStage::SetNonBlocking => 1,
    }
}

/// A host that cannot be reached gives a connection error, not a validation
/// error, and the attempt ends there: whatever is told afterwards, no
/// connection is established, so none can be published.
pub proof fn law_unreachable_host_ends_the_attempt(
    plan: ConnectPlan,
    detail: String,
    later: Seq<StepOutcome>,
)
    ensures
        attempt_from(plan, ConnectStage::Dial, seq![StepOutcome::Failed(detail)] + later) == (
        Attempt::Failed(ConnectError::Connection { host: plan.host, port: plan.port, detail })),
        !(ConnectError::Connection { host: plan.host, port: plan.port, detail }).validation(),
{
    let outcomes = seq![StepOutcome::Failed(detail)] + later;
}

/// A connection is established only when every remaining step, from the
/// stage at hand to the switch to non-blocking mode, has succeeded.
pub proof fn law_established_needs_every_step(
    plan: ConnectPlan,
    stage: ConnectStage,
    outcomes: Seq<StepOutcome>,
)
    requires
        attempt_from(plan, stage, outcomes) is Established,
    ensures
        outcomes.len() >= steps_left(stage),
        forall|i: int| 0 <= i < steps_left(stage) ==> (#[trigger] outcomes[i]) is Succeeded,
    decreases outcomes.len(),
{
    match stage_after(stage) {
        Some(next) => {
            let rest = outcomes.drop_first();
            law_established_needs_every_step(plan, next, rest);
            assert forall|i: int| 0 <= i < steps_left(stage) implies (#[trigger] outcomes[i])
                is Succeeded by {
                if i > 0 {
                    assert(outcomes[i] == rest[i - 1]);
                }
            }
        },
        None => {},
    }
}

/// The first failure decides: an attempt whose step at `stage` fails ends
/// with the error of that stage, which is never a validation error.
pub proof fn law_step_failure_ends_the_attempt(
    plan: ConnectPlan,
    stage: ConnectStage,
    detail: String,
    later: Seq<StepOutcome>,
)
    ensures
        attempt_from(plan, stage, seq![StepOutcome::Failed(detail)] + later) == Attempt::Failed(
            failure_at(plan, stage, detail),
        ),
        !failure_at(plan, stage, detail).validation(),
{
    let outcomes = seq![StepOutcome::Failed(detail)] + later;
}

/// The switch to non-blocking mode comes last, after every blocking step.
pub proof fn law_non_blocking_comes_last(stage: ConnectStage)
    ensures
        stage_after(stage) is None <==> stage == ConnectStage::SetNonBlocking,
        stage != ConnectStage::SetNonBlocking ==> steps_left(stage) > steps_left(
            ConnectStage::SetNonBlocking,
        ),
{
}

} // verus!
