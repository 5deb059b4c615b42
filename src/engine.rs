//! The engine supervisor's decisions and the port it discovers.
//!
//! The engine is a child process that writes a small JSON handshake document
//! holding its `port` into a runtime directory. The supervisor polls for that
//! document at a fixed interval, for a bounded number of attempts; the first
//! valid port wins and is never replaced. Spawning, reading the file and
//! sleeping are done by the caller, which hands each probe's outcome to
//! [`Discovery::on_handshake`] and performs the action it returns.
use vstd::prelude::*;

verus! {

/// The largest value a TCP port can take.
pub const MAX_PORT: u64 = 65535;

/// Time between two probes of the handshake file.
pub const POLL_INTERVAL_MS: u64 = 200;

/// Number of probes before discovery gives up.
pub const MAX_ATTEMPTS: u32 = 50;

/// Name of the handshake file inside the runtime directory.
pub const HANDSHAKE_FILE: &'static str = "port.json";

/// Environment variable through which the engine learns the runtime directory.
pub const RUNTIME_DIR_ENV: &'static str = "WSS_RUNTIME_DIR";

/// Prebuilt engine executable, relative to the application's working directory.
pub const NATIVE_ENGINE: &'static str = "../engine/dist/engine.exe";

/// Interpreter used when no prebuilt engine is present.
pub const INTERPRETER: &'static str = "python";

/// Entry point of the engine for the interpreter.
pub const ENGINE_SCRIPT: &'static str = "../engine/run_engine.py";

/// What `serde_json` reads as the unsigned integer member `key` of the JSON
/// document `raw`: `None` when `raw` is not JSON, not an object, has no such
/// member, or the member is not an integer in `u64`.
pub uninterp spec fn json_u64_member(raw: Seq<char>, key: Seq<char>) -> Option<u64>;

/// Relies on `serde_json::from_str::<Value>`, `Value::get` and
/// `Value::as_u64`: parse `raw`, look up the object member `key`, read it as a
/// `u64`.
#[verifier::external_body]
fn read_u64_member(raw: &str, key: &str) -> (r: Option<u64>)
    ensures
        r == json_u64_member(raw@, key@),
{
    serde_json::from_str::<serde_json::Value>(raw).ok().and_then(|v| v.get(key).and_then(|m| m.as_u64()))
}

pub open spec fn port_key() -> Seq<char> {
    seq!['p', 'o', 'r', 't']
}

/// A port field narrowed to 16 bits; values out of range count as absent.
pub open spec fn port_in_range_spec(field: Option<u64>) -> Option<u16> {
    match field {
        Some(v) => if v <= MAX_PORT { Some(v as u16) } else { None },
        None => None,
    }
}

/// The port announced by a handshake document, if it holds a valid one.
pub open spec fn handshake_port_spec(raw: Seq<char>) -> Option<u16> {
    port_in_range_spec(json_u64_member(raw, port_key()))
}

/// Narrows a port field to 16 bits, refusing values out of range.
pub fn port_in_range(field: Option<u64>) -> (r: Option<u16>)
    ensures
        r == port_in_range_spec(field),
{
    match field {
        Some(v) => if v <= MAX_PORT { Some(v as u16) } else { None },
        None => None,
    }
}

/// Reads the port out of the text of a handshake document.
pub fn handshake_port(raw: &str) -> (r: Option<u16>)
    ensures
        r == handshake_port_spec(raw@),
{
    let key = "port";
    proof {
        reveal_strlit("port");
        assert(key@ =~= port_key());
    }
    port_in_range(read_u64_member(raw, key))
}

/// Raised when the engine's port is asked for before it was discovered.
#[derive(Debug, PartialEq, Eq, Structural)]
pub struct PortUnavailable;

impl PortUnavailable {
    pub fn message(&self) -> (r: String)
        ensures
            r@ == "engine port unavailable"@,
    {
        proof {
            reveal_strlit("engine port unavailable");
        }
        "engine port unavailable".to_owned()
    }
}

/// The port of the engine, set once discovery succeeds and never changed after.
pub struct EngineState {
    port: Option<u16>,
}

impl View for EngineState {
    type V = Option<u16>;

    closed spec fn view(&self) -> Option<u16> {
        self.port
    }
}

/// Recording `p` keeps a port that was already recorded.
pub open spec fn record_spec(port: Option<u16>, p: u16) -> Option<u16> {
    match port {
        Some(q) => Some(q),
        None => Some(p),
    }
}

impl EngineState {
    /// No port is known yet.
    pub fn new() -> (r: EngineState)
        ensures
            r@ is None,
    {
        EngineState { port: None }
    }

    /// The recorded port, or `PortUnavailable` while none is; never waits.
    pub fn get_engine_port(&self) -> (r: Result<u16, PortUnavailable>)
        ensures
            match self@ {
                Some(p) => r == Ok::<u16, PortUnavailable>(p),
                None => r == Err::<u16, PortUnavailable>(PortUnavailable),
            },
    {
        match self.port {
            Some(p) => Ok(p),
            None => Err(PortUnavailable),
        }
    }

    /// Records `p` unless a port is already known: the first one wins.
    pub fn record_port(&mut self, p: u16)
        ensures
            final(self)@ == record_spec(old(self)@, p),
    {
        if self.port.is_none() {
            self.port = Some(p);
        }
    }
}

/// What the supervisor does after a probe.
#[derive(Debug, PartialEq, Eq, Structural)]
pub enum PollAction {
    /// Sleep for `millis` milliseconds, then probe again.
    Wait { millis: u64 },
    /// Discovery is over, successful or not.
    Stop,
}

/// Progress of the bounded poll for the handshake file.
#[derive(Debug, PartialEq, Eq, Structural)]
pub struct Discovery {
    pub attempts: u32,
    pub finished: bool,
}

pub open spec fn initial_discovery() -> Discovery {
    Discovery { attempts: 0, finished: false }
}

/// One probe: `found` is the port the handshake file offered on this attempt.
/// Returns the next progress, the port state, and the action to take.
pub open spec fn probe_spec(d: Discovery, port: Option<u16>, found: Option<u16>) -> (
    Discovery,
    Option<u16>,
    PollAction,
) {
    if d.finished {
        (d, port, PollAction::Stop)
    } else {
        let n = (d.attempts + 1) as u32;
        match found {
            Some(p) => (Discovery { attempts: n, finished: true }, record_spec(port, p), PollAction::Stop),
            None => if n >= MAX_ATTEMPTS {
                (Discovery { attempts: n, finished: true }, port, PollAction::Stop)
            } else {
                (
                    Discovery { attempts: n, finished: false },
                    port,
                    PollAction::Wait { millis: POLL_INTERVAL_MS },
                )
            },
        }
    }
}

/// The port state after feeding the probe outcomes `found`, in order, until
/// discovery finishes.
pub open spec fn run_spec(d: Discovery, port: Option<u16>, found: Seq<Option<u16>>) -> Option<u16>
    decreases found.len(),
{
    if found.len() == 0 || d.finished {
        port
    } else {
        let (d2, port2, _a) = probe_spec(d, port, found[0]);
        run_spec(d2, port2, found.drop_first())
    }
}

impl Discovery {
    pub open spec fn wf(&self) -> bool {
        self.attempts <= MAX_ATTEMPTS && (self.attempts == MAX_ATTEMPTS ==> self.finished)
    }

    /// No attempt made yet.
    pub fn new() -> (r: Discovery)
        ensures
            r == initial_discovery(),
            r.wf(),
    {
        Discovery { attempts: 0, finished: false }
    }

    /// Takes the outcome of one probe, records a found port into `engine`,
    /// and says whether to keep polling.
    pub fn on_probe(&mut self, engine: &mut EngineState, found: Option<u16>) -> (r: PollAction)
        requires
            old(self).wf(),
        ensures
            final(self).wf(),
            (*final(self), final(engine)@, r) == probe_spec(*old(self), old(engine)@, found),
    {
        if self.finished {
            return PollAction::Stop;
        }
        self.attempts = self.attempts + 1;
        match found {
            Some(p) => {
                engine.record_port(p);
                self.finished = true;
                PollAction::Stop
            },
            None => {
                if self.attempts >= MAX_ATTEMPTS {
                    self.finished = true;
                    PollAction::Stop
                } else {
                    PollAction::Wait { millis: POLL_INTERVAL_MS }
                }
            },
        }
    }

    /// Takes the text of the handshake file on this attempt (`None` when it
    /// could not be read) and proceeds as [`Discovery::on_probe`] with the
    /// port it announces.
    pub fn on_handshake(&mut self, engine: &mut EngineState, raw: Option<&str>) -> (r: PollAction)
        requires
            old(self).wf(),
        ensures
            final(self).wf(),
            (*final(self), final(engine)@, r) == probe_spec(
                *old(self),
                old(engine)@,
                match raw {
                    Some(t) => handshake_port_spec(t@),
                    None => None,
                },
            ),
    {
        let found = match raw {
            Some(t) => handshake_port(t),
            None => None,
        };
        self.on_probe(engine, found)
    }
}

/// How the engine process is started.
pub struct LaunchPlan {
    pub program: String,
    pub args: Vec<String>,
}

/// Prefers the prebuilt engine when it exists, else runs the engine's script
/// through the interpreter.
pub fn launch_plan(native_exists: bool) -> (r: LaunchPlan)
    ensures
        native_exists ==> r.program@ == NATIVE_ENGINE@ && r.args@.len() == 0,
        !native_exists ==> r.program@ == INTERPRETER@ && r.args@.len() == 1
            && r.args@[0]@ == ENGINE_SCRIPT@,
{
    if native_exists {
        LaunchPlan { program: NATIVE_ENGINE.to_owned(), args: Vec::new() }
    } else {
        let mut args: Vec<String> = Vec::new();
        args.push(ENGINE_SCRIPT.to_owned());
        LaunchPlan { program: INTERPRETER.to_owned(), args }
    }
}

/// A port seen within the attempt budget, with no valid handshake before it,
/// is the port discovery ends with.
pub proof fn lemma_first_valid_handshake_wins(found: Seq<Option<u16>>, k: int, p: u16)
    requires
        0 <= k < found.len(),
        k < MAX_ATTEMPTS,
        found[k] == Some(p),
        forall|j: int| 0 <= j < k ==> (#[trigger] found[j]) is None,
    ensures
        run_spec(initial_discovery(), None, found) == Some(p),
{
    lemma_run_finds(initial_discovery(), found, k, p);
}

proof fn lemma_run_finds(d: Discovery, found: Seq<Option<u16>>, k: int, p: u16)
    requires
        !d.finished,
        0 <= k < found.len(),
        d.attempts + k < MAX_ATTEMPTS,
        found[k] == Some(p),
        forall|j: int| 0 <= j < k ==> (#[trigger] found[j]) is None,
    ensures
        run_spec(d, None, found) == Some(p),
    decreases k,
{
    if k > 0 {
        let (d2, port2, _a) = probe_spec(d, None, found[0]);
        assert(found[0] is None);
        let rest = found.drop_first();
        assert forall|j: int| 0 <= j < k - 1 implies (#[trigger] rest[j]) is None by {
            assert(rest[j] == found[j + 1]);
        }
        assert(rest[k - 1] == found[k]);
        lemma_run_finds(d2, rest, k - 1, p);
    } else {
        let (d2, port2, _a) = probe_spec(d, None, found[0]);
        assert(d2.finished && port2 == Some(p));
        assert(run_spec(d2, port2, found.drop_first()) == port2);
    }
}

/// Once a port is recorded, no later probe changes it, so every later call of
/// `get_engine_port` returns it.
pub proof fn lemma_port_is_stable(d: Discovery, q: u16, found: Seq<Option<u16>>)
    ensures
        run_spec(d, Some(q), found) == Some(q),
    decreases found.len(),
{
    if found.len() > 0 && !d.finished {
        let (d2, port2, _a) = probe_spec(d, Some(q), found[0]);
        lemma_port_is_stable(d2, q, found.drop_first());
    }
}

/// Without any valid handshake, discovery ends with no port, so every call of
/// `get_engine_port` fails.
pub proof fn lemma_no_handshake_no_port(d: Discovery, found: Seq<Option<u16>>)
    requires
        forall|j: int| 0 <= j < found.len() ==> (#[trigger] found[j]) is None,
    ensures
        run_spec(d, None, found) is None,
    decreases found.len(),
{
    if found.len() > 0 && !d.finished {
        let (d2, port2, _a) = probe_spec(d, None, found[0]);
        let rest = found.drop_first();
        assert forall|j: int| 0 <= j < rest.len() implies (#[trigger] rest[j]) is None by {
            assert(rest[j] == found[j + 1]);
        }
        lemma_no_handshake_no_port(d2, rest);
    }
}

} // verus!
