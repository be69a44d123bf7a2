//! The configuration of the daemon, as its environment gives it.
//!
//! Without any setting the daemon listens on the loopback address. It can be told to
//! run without a listener. The address that it advertises follows the one that it
//! listens on, unless it is set.
use crate::contract::{Identity, IdentityView};
use crate::store::attempts;
use crate::store::processors;
use crate::store::{Store, StoreError, StoreView};
use crate::table::Record;
use crate::text::{chars_of, copy_option, replace_text, same_ignoring_case, split_words};
use crate::text;
use vstd::prelude::*;
use vstd::string::*;

verus! {

/// Where the daemon listens unless it is told otherwise.
pub const DEFAULT_RECEIVE_ADDR: &'static str = "127.0.0.1:18443";

/// What the environment of the process holds. A variable that is not set is absent.
#[derive(Debug, Clone, PartialEq, Eq)]
pub struct Environment {
    /// `AKSON_DATA_DIR`
    pub data_dir: Option<String>,
    /// `XDG_DATA_HOME`
    pub xdg_data_home: Option<String>,
    /// `HOME`
    pub home: Option<String>,
    /// The directory for temporary files.
    pub temp_dir: String,
    /// `AKSON_ISSUER`
    pub issuer: Option<String>,
    /// `AKSON_AGENT`
    pub agent: Option<String>,
    /// `AKSON_RECEIVE_ADDR`
    pub receive_addr: Option<String>,
    /// `AKSON_INTERFACE_URL`
    pub interface_url: Option<String>,
    /// `AKSON_WORKER_CMD`
    pub worker_cmd: Option<String>,
    /// `AKSON_WORKER_EXEC`
    pub worker_exec: Option<String>,
    /// `AKSON_ON_TASK`
    pub on_task: Option<String>,
}

/// The view of [`Environment`].
#[verifier::ext_equal]
pub struct EnvironmentView {
    pub data_dir: Option<Seq<char>>,
    pub xdg_data_home: Option<Seq<char>>,
    pub home: Option<Seq<char>>,
    pub temp_dir: Seq<char>,
    pub issuer: Option<Seq<char>>,
    pub agent: Option<Seq<char>>,
    pub receive_addr: Option<Seq<char>>,
    pub interface_url: Option<Seq<char>>,
    pub worker_cmd: Option<Seq<char>>,
    pub worker_exec: Option<Seq<char>>,
    pub on_task: Option<Seq<char>>,
}

impl View for Environment {
    type V = EnvironmentView;

    open spec fn view(&self) -> EnvironmentView {
        EnvironmentView {
            data_dir: text::view_option(self.data_dir),
            xdg_data_home: text::view_option(self.xdg_data_home),
            home: text::view_option(self.home),
            temp_dir: self.temp_dir@,
            issuer: text::view_option(self.issuer),
            agent: text::view_option(self.agent),
            receive_addr: text::view_option(self.receive_addr),
            interface_url: text::view_option(self.interface_url),
            worker_cmd: text::view_option(self.worker_cmd),
            worker_exec: text::view_option(self.worker_exec),
            on_task: text::view_option(self.on_task),
        }
    }
}

impl Record for Environment {
    fn dup(&self) -> (r: Self) {
        let r = Environment {
            data_dir: copy_option(&self.data_dir),
            xdg_data_home: copy_option(&self.xdg_data_home),
            home: copy_option(&self.home),
            temp_dir: self.temp_dir.clone(),
            issuer: copy_option(&self.issuer),
            agent: copy_option(&self.agent),
            receive_addr: copy_option(&self.receive_addr),
            interface_url: copy_option(&self.interface_url),
            worker_cmd: copy_option(&self.worker_cmd),
            worker_exec: copy_option(&self.worker_exec),
            on_task: copy_option(&self.on_task),
        };
        r
    }
}

/// The configuration of the daemon.
#[derive(Debug, Clone, PartialEq, Eq)]
pub struct DaemonConfig {
    /// Where the state and the keys are.
    pub data_dir: String,
    /// This endpoint, as the performer of what it receives. Its root is set once the
    /// keys are there.
    pub local_performer: Identity,
    /// The URL that is advertised.
    pub interface_url: String,
    /// Where to listen; without it there is no listener.
    pub receive_addr: Option<String>,
    /// The command that a shell runs for a task.
    pub worker_command: Option<String>,
    /// The program and its arguments that run directly for a task. It comes before
    /// the command. Where no word is given, there is none.
    pub worker_exec: Option<Vec<String>>,
    /// The command that runs when a task arrives.
    pub on_task: Option<String>,
}

/// The view of [`DaemonConfig`].
#[verifier::ext_equal]
pub struct DaemonConfigView {
    pub data_dir: Seq<char>,
    pub local_performer: IdentityView,
    pub interface_url: Seq<char>,
    pub receive_addr: Option<Seq<char>>,
    pub worker_command: Option<Seq<char>>,
    pub worker_exec: Option<Seq<Seq<char>>>,
    pub on_task: Option<Seq<char>>,
}

impl View for DaemonConfig {
    type V = DaemonConfigView;

    open spec fn view(&self) -> DaemonConfigView {
        DaemonConfigView {
            data_dir: self.data_dir@,
            local_performer: self.local_performer@,
            interface_url: self.interface_url@,
            receive_addr: text::view_option(self.receive_addr),
            worker_command: text::view_option(self.worker_command),
            worker_exec: match self.worker_exec {
                Some(argv) => Some(text::views(argv@)),
                None => None,
            },
            on_task: text::view_option(self.on_task),
        }
    }
}

/// A setting that is there and not empty.
pub open spec fn set(value: Option<Seq<char>>) -> Option<Seq<char>> {
    match value {
        Some(v) => if v.len() > 0 {
            Some(v)
        } else {
            None
        },
        None => None,
    }
}

/// A setting, or its default.
pub open spec fn set_or(value: Option<Seq<char>>, default: Seq<char>) -> Seq<char> {
    match set(value) {
        Some(v) => v,
        None => default,
    }
}

/// A path below a directory.
pub open spec fn below(dir: Seq<char>, rest: Seq<char>) -> Seq<char> {
    if dir.len() == 0 || dir.last() == '/' {
        dir + rest
    } else {
        dir + "/"@ + rest
    }
}

/// Where the data is unless it is told otherwise.
pub open spec fn default_dir(env: EnvironmentView) -> Seq<char> {
    match (set(env.xdg_data_home), set(env.home)) {
        (Some(xdg), _) => below(xdg, "akson"@),
        (None, Some(home)) => below(home, ".local/share/akson"@),
        (None, None) => below(env.temp_dir, "akson-data"@),
    }
}

/// Where the daemon listens, by its setting.
pub open spec fn listens_at(value: Option<Seq<char>>) -> Option<Seq<char>> {
    match set(value) {
        Some(v) => if text::lowered(v) == text::lowered("off"@) || text::lowered(v) == text::lowered("none"@) {
            None
        } else {
            Some(v)
        },
        None => Some(DEFAULT_RECEIVE_ADDR@),
    }
}

/// The URL that is advertised for an address. No address that stands for all of them
/// can be advertised: the loopback address takes its place.
pub open spec fn advertised(addr: Option<Seq<char>>) -> Seq<char> {
    let at = match addr {
        Some(a) => a,
        None => DEFAULT_RECEIVE_ADDR@,
    };
    "https://"@ + text::replaced(text::replaced(at, "0.0.0.0"@, "127.0.0.1"@), "[::]"@, "[::1]"@) + "/a2a"@
}

/// The configuration that an environment gives.
pub open spec fn config_of(env: EnvironmentView) -> DaemonConfigView {
    DaemonConfigView {
        data_dir: set_or(env.data_dir, default_dir(env)),
        local_performer: IdentityView {
            issuer: set_or(env.issuer, "local"@),
            agent: set_or(env.agent, "akson-local"@),
            root: Seq::empty(),
        },
        interface_url: set_or(env.interface_url, advertised(listens_at(env.receive_addr))),
        receive_addr: listens_at(env.receive_addr),
        worker_command: set(env.worker_cmd),
        worker_exec: match set(env.worker_exec) {
            Some(line) => if text::words(line).len() > 0 {
                Some(text::words(line))
            } else {
                None
            },
            None => None,
        },
        on_task: set(env.on_task),
    }
}

fn if_set(value: &Option<String>) -> (r: Option<String>)
    ensures
        text::view_option(r) == set(text::view_option(*value)),
{
    match value {
        Some(v) => {
            if v.as_str().is_empty() {
                assert(v@.len() == 0);
                None
            } else {
                Some(v.clone())
            }
        },
        None => None,
    }
}

fn if_set_or(value: &Option<String>, default: &str) -> (r: String)
    ensures
        r@ == set_or(text::view_option(*value), default@),
{
    match if_set(value) {
        Some(v) => v,
        None => default.to_owned(),
    }
}

fn path_below(dir: &str, rest: &str) -> (r: String)
    ensures
        r@ == below(dir@, rest@),
{
    let v = chars_of(dir);
    if v.len() == 0 || v[v.len() - 1] == '/' {
        dir.to_owned().concat(rest)
    } else {
        dir.to_owned().concat("/").concat(rest)
    }
}

/// Where the data is unless it is told otherwise.
pub fn default_data_dir(env: &Environment) -> (r: String)
    ensures
        r@ == default_dir(env@),
{
    match if_set(&env.xdg_data_home) {
        Some(xdg) => path_below(&xdg, "akson"),
        None => match if_set(&env.home) {
            Some(home) => path_below(&home, ".local/share/akson"),
            None => path_below(&env.temp_dir, "akson-data"),
        },
    }
}

fn listening(value: &Option<String>) -> (r: Option<String>)
    ensures
        text::view_option(r) == listens_at(text::view_option(*value)),
{
    match if_set(value) {
        Some(v) => {
            let chars = chars_of(&v);
            if same_ignoring_case(&chars, &chars_of("off")) || same_ignoring_case(
                &chars,
                &chars_of("none"),
            ) {
                None
            } else {
                Some(v)
            }
        },
        None => Some(DEFAULT_RECEIVE_ADDR.to_owned()),
    }
}

fn advertise(addr: &Option<String>) -> (r: String)
    ensures
        r@ == advertised(text::view_option(*addr)),
{
    let at = match addr {
        Some(a) => a.clone(),
        None => DEFAULT_RECEIVE_ADDR.to_owned(),
    };
    proof {
        reveal_strlit("0.0.0.0");
        reveal_strlit("[::]");
    }
    let one = replace_text(&at, "0.0.0.0", "127.0.0.1");
    let two = replace_text(&one, "[::]", "[::1]");
    "https://".to_owned().concat(&two).concat("/a2a")
}

impl DaemonConfig {
    /// Reads the configuration from the environment.
    pub fn from_env(env: &Environment) -> (r: DaemonConfig)
        ensures
            r@ == config_of(env@),
    {
        let data_dir = match if_set(&env.data_dir) {
            Some(dir) => dir,
            None => default_data_dir(env),
        };
        let receive_addr = listening(&env.receive_addr);
        let interface_url = match if_set(&env.interface_url) {
            Some(url) => url,
            None => advertise(&receive_addr),
        };
        let worker_exec = match if_set(&env.worker_exec) {
            Some(line) => {
                let argv = split_words(&line);
                if argv.len() > 0 {
                    Some(argv)
                } else {
                    None
                }
            },
            None => None,
        };
        let root = String::new();
        assert(root@ =~= Seq::<char>::empty());
        DaemonConfig {
            data_dir,
            local_performer: Identity {
                issuer: if_set_or(&env.issuer, "local"),
                agent: if_set_or(&env.agent, "akson-local"),
                root,
            },
            interface_url,
            receive_addr,
            worker_command: if_set(&env.worker_cmd),
            worker_exec,
            on_task: if_set(&env.on_task),
        }
    }
}

/// Why the daemon does not come up.
#[derive(Debug)]
pub enum BootstrapError {
    /// A file or directory could not be used.
    Io(String),
    Store(StoreError),
    Config(String),
}

/// What is said of a secret file that is of the wrong length.
pub open spec fn bad_secret(path: Seq<char>) -> Seq<char> {
    "the secret file "@ + path + " is not exactly 32 bytes"@
}

/// Reads a secret out of the contents of its file. A secret is of exactly 32 bytes:
/// anything else is refused rather than cut or filled up.
pub fn read_secret(path: &str, contents: &Vec<u8>) -> (r: Result<[u8; 32], BootstrapError>)
    ensures
        match r {
            Ok(secret) => secret@ == contents@,
            Err(BootstrapError::Config(why)) => contents@.len() != 32 && why@ == bad_secret(path@),
            Err(_) => false,
        },
{
    if contents.len() != 32 {
        return Err(
            BootstrapError::Config(
                "the secret file ".to_owned().concat(path).concat(" is not exactly 32 bytes"),
            ),
        );
    }
    let mut secret: [u8; 32] = [0u8;32];
    let mut k: usize = 0;
    while k < 32
        invariant
            k <= 32,
            contents@.len() == 32,
            forall|i: int| 0 <= i < k ==> secret@[i] == contents@[i],
        decreases 32 - k,
    {
        secret[k] = contents[k];
        k = k + 1;
    }
    assert(secret@ =~= contents@);
    Ok(secret)
}

/// What the daemon does to its state as it comes up: whatever was under way when it
/// stopped is ambiguous, the attempts first and then the calls.
pub open spec fn recovered(v: StoreView, w: StoreView, now: i64) -> bool {
    exists|u: StoreView, ids: Seq<Seq<char>>, keys: Seq<Seq<char>>| #[trigger]
        attempts::recovered_attempts(v, u, ids, now) && #[trigger] processors::recovered_calls(u, w, keys, now)
}

/// Marks what was under way when the daemon stopped. It is never tried again by
/// itself, and never taken for done.
pub fn recover_from_crash(store: &mut Store, now: i64) -> (r: Result<(), StoreError>)
    requires
        old(store).wf(),
    ensures
        r is Ok,
        final(store).wf(),
        recovered(old(store)@, final(store)@, now),
{
    match store.resolve_crashed_attempts(now) {
        Ok(_) => {},
        Err(e) => {
            return Err(e);
        },
    }
    match store.resolve_crashed_calls(now) {
        Ok(_) => Ok(()),
        Err(e) => Err(e),
    }
}

/// A daemon with no setting at all listens on the loopback address, and advertises
/// the address that it listens on.
pub proof fn the_default_is_local(env: EnvironmentView)
    requires
        env.receive_addr is None,
        env.interface_url is None,
    ensures
        config_of(env).receive_addr == Some(DEFAULT_RECEIVE_ADDR@),
        config_of(env).interface_url == advertised(config_of(env).receive_addr),
{
}

/// A setting that is empty is as good as none.
pub proof fn empty_settings_do_not_count(a: EnvironmentView, b: EnvironmentView)
    requires
        a.temp_dir == b.temp_dir,
        set(a.data_dir) == set(b.data_dir),
        set(a.xdg_data_home) == set(b.xdg_data_home),
        set(a.home) == set(b.home),
        set(a.issuer) == set(b.issuer),
        set(a.agent) == set(b.agent),
        set(a.receive_addr) == set(b.receive_addr),
        set(a.interface_url) == set(b.interface_url),
        set(a.worker_cmd) == set(b.worker_cmd),
        set(a.worker_exec) == set(b.worker_exec),
        set(a.on_task) == set(b.on_task),
    ensures
        config_of(a) == config_of(b),
{
}

} // verus!
