//! Configuration of a node, and the run of calls that starts it.

use crate::call::{Call, CallView, Reply, ReplyView, Step, StepView, ERRMSG_BUFFER_LEN, NO_LOG_FD};
use crate::error::{is_nul_error, Error, ErrorView, OsError};
use crate::server::Server;
use crate::status::{engine_error, err, failed, message_bytes};
use crate::text::{is_utf8, nul_free, utf8_lossy, CText};
use vstd::prelude::*;
use vstd::utf8::{decode_utf8, encode_utf8, valid_utf8};

verus! {

/// What becomes of the engine's log output.
#[derive(Debug, Clone, Copy, PartialEq, Eq, Structural)]
pub enum LogMode {
    /// It stays where the engine sends it.
    Default,
    /// It goes through a pipe to the log relay.
    Redirect,
    /// It is switched off.
    Disable,
}

/// Server factory, which can be used to configure the properties of a new
/// server. Methods can be chained on it in order to configure it.
#[derive(Debug)]
pub struct ServerBuilder {
    dir: Option<Vec<u8>>,
    hostname: Option<String>,
    authkey: Option<String>,
    control_url: Option<String>,
    ephemeral: bool,
    log: LogMode,
}

/// What a `ServerBuilder` stands for: the configuration record.
pub ghost struct Config {
    /// The state directory, as the bytes of its path.
    pub dir: Option<Seq<u8>>,
    pub hostname: Option<Seq<char>>,
    pub authkey: Option<Seq<char>>,
    pub control_url: Option<Seq<char>>,
    pub ephemeral: bool,
    pub log: LogMode,
}

/// A configuration record made ready for the engine: every string as the
/// bytes to hand over.
pub ghost struct PlanView {
    pub dir: Option<Seq<u8>>,
    pub hostname: Option<Seq<u8>>,
    pub authkey: Option<Seq<u8>>,
    pub control_url: Option<Seq<u8>>,
    pub ephemeral: bool,
    pub log: LogMode,
}

/// The bytes of a text that may be missing.
pub open spec fn encoded(text: Option<Seq<char>>) -> Option<Seq<u8>> {
    match text {
        Some(text) => Some(encode_utf8(text)),
        None => None,
    }
}

/// The bytes that may be missing hold no zero byte.
pub open spec fn absent_or_nul_free(bytes: Option<Seq<u8>>) -> bool {
    bytes matches Some(bytes) ==> nul_free(bytes)
}

impl Config {
    /// The record that a new builder holds: nothing set, a lasting node, the
    /// log left alone.
    pub open spec fn empty() -> Config {
        Config {
            dir: None,
            hostname: None,
            authkey: None,
            control_url: None,
            ephemeral: false,
            log: LogMode::Default,
        }
    }

    /// The record with every string as bytes.
    pub open spec fn plan(self) -> PlanView {
        PlanView {
            dir: self.dir,
            hostname: encoded(self.hostname),
            authkey: encoded(self.authkey),
            control_url: encoded(self.control_url),
            ephemeral: self.ephemeral,
            log: self.log,
        }
    }

    /// The directory, where one is set, is text.
    pub open spec fn dir_is_text(self) -> bool {
        self.dir matches Some(dir) ==> valid_utf8(dir)
    }

    /// Every string of the record can be handed to the engine: the directory
    /// is text, and no string holds a zero byte.
    pub open spec fn encodable(self) -> bool {
        &&& self.dir_is_text()
        &&& absent_or_nul_free(self.plan().dir)
        &&& absent_or_nul_free(self.plan().hostname)
        &&& absent_or_nul_free(self.plan().authkey)
        &&& absent_or_nul_free(self.plan().control_url)
    }

    /// `error` is the encoding error of the record: that of the first string
    /// that cannot be handed over, in the order directory, hostname, auth
    /// key, control URL. For the directory, not being text comes first.
    pub open spec fn refused_with(self, error: ErrorView) -> bool {
        let plan = self.plan();
        if !self.dir_is_text() {
            error == ErrorView::CantConvertToString
        } else if !absent_or_nul_free(plan.dir) {
            is_nul_error(error, plan.dir->0)
        } else if !absent_or_nul_free(plan.hostname) {
            is_nul_error(error, plan.hostname->0)
        } else if !absent_or_nul_free(plan.authkey) {
            is_nul_error(error, plan.authkey->0)
        } else if !absent_or_nul_free(plan.control_url) {
            is_nul_error(error, plan.control_url->0)
        } else {
            false
        }
    }
}

impl View for ServerBuilder {
    type V = Config;

    closed spec fn view(&self) -> Config {
        Config {
            dir: path_of(self.dir),
            hostname: chars_of(self.hostname),
            authkey: chars_of(self.authkey),
            control_url: chars_of(self.control_url),
            ephemeral: self.ephemeral,
            log: self.log,
        }
    }
}

impl Default for ServerBuilder {
    fn default() -> (made: ServerBuilder)
        ensures
            made@ == Config::empty(),
    {
        ServerBuilder {
            dir: None,
            hostname: None,
            authkey: None,
            control_url: None,
            ephemeral: false,
            log: LogMode::Default,
        }
    }
}

/// The strings of a configuration, each checked and ready for the engine.
#[derive(Debug)]
struct Plan {
    dir: Option<CText>,
    hostname: Option<CText>,
    authkey: Option<CText>,
    control_url: Option<CText>,
    ephemeral: bool,
    log: LogMode,
}

/// What a text that may be missing stands for.
spec fn chars_of(text: Option<String>) -> Option<Seq<char>> {
    match text {
        Some(text) => Some(text@),
        None => None,
    }
}

/// What a path that may be missing stands for.
spec fn path_of(path: Option<Vec<u8>>) -> Option<Seq<u8>> {
    match path {
        Some(path) => Some(path@),
        None => None,
    }
}

/// What a string that may be missing stands for.
spec fn bytes_of(text: Option<CText>) -> Option<Seq<u8>> {
    match text {
        Some(text) => Some(text@),
        None => None,
    }
}

impl View for Plan {
    type V = PlanView;

    closed spec fn view(&self) -> PlanView {
        PlanView {
            dir: bytes_of(self.dir),
            hostname: bytes_of(self.hostname),
            authkey: bytes_of(self.authkey),
            control_url: bytes_of(self.control_url),
            ephemeral: self.ephemeral,
            log: self.log,
        }
    }
}

/// A text that may be missing, as the engine takes it, or the encoding error
/// for it.
fn checked(text: Option<String>) -> (made: Result<Option<CText>, Error>)
    ensures
        made is Ok <==> absent_or_nul_free(encoded(chars_of(text))),
        made is Ok ==> bytes_of(made->Ok_0) == encoded(chars_of(text)),
        made is Err ==> text is Some && is_nul_error(made->Err_0@, encode_utf8(text->0@)),
{
    match text {
        Some(text) => match CText::from_text(text.as_str()) {
            Ok(text) => Ok(Some(text)),
            Err(refused) => Err(Error::NullInString(refused)),
        },
        None => Ok(None),
    }
}

/// A path that may be missing, as the engine takes it, or the encoding error
/// for it.
fn checked_path(path: Option<Vec<u8>>) -> (made: Result<Option<CText>, Error>)
    ensures
        made is Ok <==> (path matches Some(path) ==> valid_utf8(path@) && nul_free(path@)),
        made is Ok ==> bytes_of(made->Ok_0) == path_of(path),
        made is Err ==> path is Some,
        made is Err && !valid_utf8(path->0@) ==> made->Err_0@ == ErrorView::CantConvertToString,
        made is Err && valid_utf8(path->0@) ==> is_nul_error(made->Err_0@, path->0@),
{
    match path {
        Some(path) => {
            if !is_utf8(path.as_slice()) {
                return Err(Error::CantConvertToString);
            }
            match CText::new(path) {
                Ok(text) => Ok(Some(text)),
                Err(refused) => Err(Error::NullInString(refused)),
            }
        },
        None => Ok(None),
    }
}

impl ServerBuilder {
    /// Generates the base configuration for a new server, from which
    /// configuration methods can be chained.
    ///
    /// Call [`ServerBuilder::build`] to start the server.
    pub fn new() -> (made: ServerBuilder)
        ensures
            made@ == Config::empty(),
    {
        ServerBuilder::default()
    }

    /// Specifies the directory to use for state, by the bytes of its path.
    /// If unset, the engine selects one.
    pub fn dir(self, dir: Vec<u8>) -> (made: Self)
        ensures
            made@ == (Config { dir: Some(dir@), ..self@ }),
    {
        let mut made = self;
        made.dir = Some(dir);
        made
    }

    /// The hostname to present to the control server.
    /// If unset, the engine uses the name of the program.
    pub fn hostname(self, hostname: &str) -> (made: Self)
        ensures
            made@ == (Config { hostname: Some(hostname@), ..self@ }),
    {
        let mut made = self;
        made.hostname = Some(hostname.to_owned());
        made
    }

    /// The auth key to create the node with. If unset, the engine falls back
    /// on its environment.
    pub fn authkey(self, authkey: String) -> (made: Self)
        ensures
            made@ == (Config { authkey: Some(authkey@), ..self@ }),
    {
        let mut made = self;
        made.authkey = Some(authkey);
        made
    }

    /// Specifies the coordination server URL.
    /// If unset, the engine uses its default.
    pub fn control_url(self, control_url: String) -> (made: Self)
        ensures
            made@ == (Config { control_url: Some(control_url@), ..self@ }),
    {
        let mut made = self;
        made.control_url = Some(control_url);
        made
    }

    /// Specifies that the instance should register as an ephemeral node.
    pub fn ephemeral(self) -> (made: Self)
        ensures
            made@ == (Config { ephemeral: true, ..self@ }),
    {
        let mut made = self;
        made.ephemeral = true;
        made
    }

    /// Redirects the engine's log output to the log relay.
    pub fn redirect_log(self) -> (made: Self)
        ensures
            made@ == (Config { log: LogMode::Redirect, ..self@ }),
    {
        let mut made = self;
        made.log = LogMode::Redirect;
        made
    }

    /// Disables the engine's log output.
    pub fn disable_log(self) -> (made: Self)
        ensures
            made@ == (Config { log: LogMode::Disable, ..self@ }),
    {
        let mut made = self;
        made.log = LogMode::Disable;
        made
    }

    /// Starts the run of calls that creates, configures and starts the node.
    ///
    /// Every string is checked first. A record that cannot be handed to the
    /// engine is refused here with its encoding error, before any call
    /// exists. Otherwise the run begins with the creation of the node.
    pub fn build(self) -> (run: Result<Build, Error>)
        ensures
            run is Ok <==> self@.encodable(),
            run is Ok ==> run->Ok_0@ == BuildView::begin(self@.plan()),
            run is Err ==> self@.refused_with(run->Err_0@),
    {
        let dir = checked_path(self.dir)?;
        let hostname = checked(self.hostname)?;
        let authkey = checked(self.authkey)?;
        let control_url = checked(self.control_url)?;
        let plan = Plan {
            dir,
            hostname,
            authkey,
            control_url,
            ephemeral: self.ephemeral,
            log: self.log,
        };
        Ok(Build { stage: Stage::Node, node: 0, plan, call: Call::NewNode })
    }
}

/// The call of a run that is under way.
#[derive(Debug, Clone, Copy, PartialEq, Eq, Structural)]
pub enum Stage {
    /// The creation of the node.
    Node,
    /// The creation of the log pipe and its relay.
    Pipe,
    /// The registration of the log target.
    Log,
    Dir,
    Hostname,
    AuthKey,
    ControlUrl,
    Ephemeral,
    Start,
    /// The fetch of the message of a call that failed.
    Fetch,
}

/// The run that creates, configures and starts a node: the call under way,
/// and what is left to apply after it.
#[derive(Debug)]
pub struct Build {
    stage: Stage,
    node: i32,
    plan: Plan,
    call: Call,
}

/// What a `Build` stands for.
pub ghost struct BuildView {
    pub stage: Stage,
    /// The node's handle; 0 until the engine has handed one out.
    pub node: i32,
    /// What is left to apply once the call under way has succeeded.
    pub plan: PlanView,
    /// The call under way.
    pub call: CallView,
}

impl View for Build {
    type V = BuildView;

    closed spec fn view(&self) -> BuildView {
        BuildView { stage: self.stage, node: self.node, plan: self.plan@, call: self.call@ }
    }
}

impl BuildView {
    /// The run at its start: the node is to be created, and all of `plan` is
    /// left to apply.
    pub open spec fn begin(plan: PlanView) -> BuildView {
        BuildView { stage: Stage::Node, node: 0, plan, call: CallView::NewNode }
    }

    /// The call under way is the one that the stage names, on the run's node.
    pub open spec fn wf(self) -> bool {
        match self.stage {
            Stage::Node => self.call == CallView::NewNode,
            Stage::Pipe => self.call == CallView::OpenLogPipe,
            Stage::Log => self.call is SetLogFd && self.call->SetLogFd_node == self.node,
            Stage::Dir => self.call is SetDir && self.call->SetDir_node == self.node,
            Stage::Hostname => self.call is SetHostname && self.call->SetHostname_node
                == self.node,
            Stage::AuthKey => self.call is SetAuthKey && self.call->SetAuthKey_node == self.node,
            Stage::ControlUrl => self.call is SetControlUrl && self.call->SetControlUrl_node
                == self.node,
            Stage::Ephemeral => self.call is SetEphemeral && self.call->SetEphemeral_node
                == self.node,
            Stage::Start => self.call == (CallView::Start { node: self.node }),
            Stage::Fetch => self.call == (CallView::ErrMsg {
                handle: self.node,
                buflen: ERRMSG_BUFFER_LEN,
            }),
        }
    }

    /// The run at `stage`, with `call` under way.
    pub open spec fn at(stage: Stage, node: i32, plan: PlanView, call: CallView) -> StepView<
        BuildView,
        i32,
    > {
        StepView::Next(BuildView { stage, node, plan, call })
    }

    /// The run from the log target on.
    pub open spec fn enter_log(node: i32, plan: PlanView) -> StepView<BuildView, i32> {
        match plan.log {
            LogMode::Default => BuildView::enter_dir(node, plan),
            LogMode::Redirect => BuildView::at(Stage::Pipe, node, plan, CallView::OpenLogPipe),
            LogMode::Disable => BuildView::at(
                Stage::Log,
                node,
                plan,
                CallView::SetLogFd { node, fd: NO_LOG_FD },
            ),
        }
    }

    /// The run from the directory on.
    pub open spec fn enter_dir(node: i32, plan: PlanView) -> StepView<BuildView, i32> {
        match plan.dir {
            Some(dir) => BuildView::at(
                Stage::Dir,
                node,
                PlanView { dir: None, ..plan },
                CallView::SetDir { node, dir },
            ),
            None => BuildView::enter_hostname(node, plan),
        }
    }

    /// The run from the hostname on.
    pub open spec fn enter_hostname(node: i32, plan: PlanView) -> StepView<BuildView, i32> {
        match plan.hostname {
            Some(hostname) => BuildView::at(
                Stage::Hostname,
                node,
                PlanView { hostname: None, ..plan },
                CallView::SetHostname { node, hostname },
            ),
            None => BuildView::enter_authkey(node, plan),
        }
    }

    /// The run from the auth key on.
    pub open spec fn enter_authkey(node: i32, plan: PlanView) -> StepView<BuildView, i32> {
        match plan.authkey {
            Some(authkey) => BuildView::at(
                Stage::AuthKey,
                node,
                PlanView { authkey: None, ..plan },
                CallView::SetAuthKey { node, authkey },
            ),
            None => BuildView::enter_control_url(node, plan),
        }
    }

    /// The run from the control URL on.
    pub open spec fn enter_control_url(node: i32, plan: PlanView) -> StepView<BuildView, i32> {
        match plan.control_url {
            Some(control_url) => BuildView::at(
                Stage::ControlUrl,
                node,
                PlanView { control_url: None, ..plan },
                CallView::SetControlUrl { node, control_url },
            ),
            None => BuildView::enter_ephemeral(node, plan),
        }
    }

    /// The run from the ephemeral flag on. The flag is always set, to 1 for an
    /// ephemeral node and to 0 for a lasting one.
    pub open spec fn enter_ephemeral(node: i32, plan: PlanView) -> StepView<BuildView, i32> {
        BuildView::at(
            Stage::Ephemeral,
            node,
            plan,
            CallView::SetEphemeral { node, ephemeral: if plan.ephemeral { 1i32 } else { 0i32 } },
        )
    }

    /// The run at its last call, the start of the node.
    pub open spec fn enter_start(node: i32, plan: PlanView) -> StepView<BuildView, i32> {
        BuildView::at(Stage::Start, node, plan, CallView::Start { node })
    }

    /// The run at the fetch of the message of a call that failed.
    pub open spec fn enter_fetch(node: i32, plan: PlanView) -> StepView<BuildView, i32> {
        BuildView::at(
            Stage::Fetch,
            node,
            plan,
            CallView::ErrMsg { handle: node, buflen: ERRMSG_BUFFER_LEN },
        )
    }

    /// Where the run stands once `reply` has answered the call under way. It
    /// ends with the node's handle or with an error.
    pub open spec fn resolve(self, reply: ReplyView) -> StepView<BuildView, i32> {
        match self.stage {
            Stage::Fetch => StepView::Done(
                Err(ErrorView::TSNet(utf8_lossy(message_bytes(reply.text)))),
            ),
            Stage::Node => BuildView::enter_log(reply.status, self.plan),
            Stage::Pipe => if failed(reply.status) {
                StepView::Done(Err(ErrorView::IO(OsError { code: reply.out })))
            } else {
                BuildView::at(
                    Stage::Log,
                    self.node,
                    self.plan,
                    CallView::SetLogFd { node: self.node, fd: reply.out },
                )
            },
            _ => if failed(reply.status) {
                BuildView::enter_fetch(self.node, self.plan)
            } else {
                match self.stage {
                    Stage::Log => BuildView::enter_dir(self.node, self.plan),
                    Stage::Dir => BuildView::enter_hostname(self.node, self.plan),
                    Stage::Hostname => BuildView::enter_authkey(self.node, self.plan),
                    Stage::AuthKey => BuildView::enter_control_url(self.node, self.plan),
                    Stage::ControlUrl => BuildView::enter_ephemeral(self.node, self.plan),
                    Stage::Ephemeral => BuildView::enter_start(self.node, self.plan),
                    _ => StepView::Done(Ok(self.node)),
                }
            },
        }
    }
}

impl Build {
    #[verifier::type_invariant]
    pub closed spec fn call_matches_stage(&self) -> bool {
        self@.wf()
    }

    /// The call to make now: the one that the stage names. No string in it
    /// holds a zero byte.
    pub fn call(&self) -> (call: &Call)
        ensures
            call@ == self@.call,
            call@.nul_free(),
            self@.wf(),
    {
        proof {
            use_type_invariant(self);
        }
        self.call.strings_nul_free();
        &self.call
    }

    /// The call of the run that is under way.
    pub fn stage(&self) -> (stage: Stage)
        ensures
            stage == self@.stage,
    {
        self.stage
    }

    /// Whether the call under way is the fetch of an error message.
    pub fn fetching(&self) -> (fetching: bool)
        ensures
            fetching == (self@.stage == Stage::Fetch),
    {
        self.stage == Stage::Fetch
    }

    fn at(stage: Stage, node: i32, plan: Plan, call: Call) -> (step: Step<Build, Server>)
        requires
            (BuildView { stage, node, plan: plan@, call: call@ }).wf(),
        ensures
            step@ == BuildView::at(stage, node, plan@, call@),
    {
        Step::Next(Build { stage, node, plan, call })
    }

    fn enter_log(node: i32, plan: Plan) -> (step: Step<Build, Server>)
        ensures
            step@ == BuildView::enter_log(node, plan@),
    {
        match plan.log {
            LogMode::Default => Build::enter_dir(node, plan),
            LogMode::Redirect => Build::at(Stage::Pipe, node, plan, Call::OpenLogPipe),
            LogMode::Disable => Build::at(
                Stage::Log,
                node,
                plan,
                Call::SetLogFd { node, fd: NO_LOG_FD },
            ),
        }
    }

    fn enter_dir(node: i32, plan: Plan) -> (step: Step<Build, Server>)
        ensures
            step@ == BuildView::enter_dir(node, plan@),
    {
        let mut plan = plan;
        match plan.dir.take() {
            Some(dir) => Build::at(Stage::Dir, node, plan, Call::SetDir { node, dir }),
            None => Build::enter_hostname(node, plan),
        }
    }

    fn enter_hostname(node: i32, plan: Plan) -> (step: Step<Build, Server>)
        ensures
            step@ == BuildView::enter_hostname(node, plan@),
    {
        let mut plan = plan;
        match plan.hostname.take() {
            Some(hostname) => Build::at(
                Stage::Hostname,
                node,
                plan,
                Call::SetHostname { node, hostname },
            ),
            None => Build::enter_authkey(node, plan),
        }
    }

    fn enter_authkey(node: i32, plan: Plan) -> (step: Step<Build, Server>)
        ensures
            step@ == BuildView::enter_authkey(node, plan@),
    {
        let mut plan = plan;
        match plan.authkey.take() {
            Some(authkey) => Build::at(Stage::AuthKey, node, plan, Call::SetAuthKey { node, authkey }),
            None => Build::enter_control_url(node, plan),
        }
    }

    fn enter_control_url(node: i32, plan: Plan) -> (step: Step<Build, Server>)
        ensures
            step@ == BuildView::enter_control_url(node, plan@),
    {
        let mut plan = plan;
        match plan.control_url.take() {
            Some(control_url) => Build::at(
                Stage::ControlUrl,
                node,
                plan,
                Call::SetControlUrl { node, control_url },
            ),
            None => Build::enter_ephemeral(node, plan),
        }
    }

    fn enter_ephemeral(node: i32, plan: Plan) -> (step: Step<Build, Server>)
        ensures
            step@ == BuildView::enter_ephemeral(node, plan@),
    {
        let ephemeral: i32 = if plan.ephemeral {
            1
        } else {
            0
        };
        Build::at(Stage::Ephemeral, node, plan, Call::SetEphemeral { node, ephemeral })
    }

    /// Takes the reply to the call under way, and says what comes next: one
    /// more call, the started node, or the error that ended the run. A fetch
    /// of an error message must itself have succeeded.
    ///
    /// A run that fails does not close the node that it created.
    pub fn resolve(self, reply: &Reply) -> (step: Step<Build, Server>)
        requires
            self@.stage == Stage::Fetch ==> reply.status == 0,
        ensures
            step@ == self@.resolve(reply@),
            self@.stage == Stage::Fetch && valid_utf8(message_bytes(reply.text@)) ==> step@
                == StepView::<BuildView, i32>::Done(
                Err(ErrorView::TSNet(decode_utf8(message_bytes(reply.text@)))),
            ),
    {
        let Build { stage, node, plan, call: _ } = self;
        match stage {
            Stage::Fetch => Step::Done(Err(engine_error(reply))),
            Stage::Node => Build::enter_log(reply.status, plan),
            Stage::Pipe => {
                if reply.status < 0 {
                    Step::Done(Err(Error::IO(OsError { code: reply.out })))
                } else {
                    Build::at(Stage::Log, node, plan, Call::SetLogFd { node, fd: reply.out })
                }
            },
            _ => match err(node, reply.status) {
                Some(fetch) => Build::at(Stage::Fetch, node, plan, fetch),
                None => match stage {
                    Stage::Log => Build::enter_dir(node, plan),
                    Stage::Dir => Build::enter_hostname(node, plan),
                    Stage::Hostname => Build::enter_authkey(node, plan),
                    Stage::AuthKey => Build::enter_control_url(node, plan),
                    Stage::ControlUrl => Build::enter_ephemeral(node, plan),
                    Stage::Ephemeral => Build::at(Stage::Start, node, plan, Call::Start { node }),
                    _ => Step::Done(Ok(Server::from_handle(node))),
                },
            },
        }
    }
}

} // verus!
