use vstd::prelude::*;

verus! {

/// Longest SSID, in UTF-8 bytes, that the Wi-Fi client configuration holds.
pub const SSID_MAX_BYTES: usize = 32;

/// Longest password, in UTF-8 bytes, that the Wi-Fi client configuration holds.
pub const PASSWORD_MAX_BYTES: usize = 64;

/// How long each of the two waits of the connection may take, in seconds.
pub const WAIT_TIMEOUT_SECS: u64 = 20;

/// Length in UTF-8 bytes of a text.
pub open spec fn utf8_len(s: Seq<char>) -> nat {
    vstd::utf8::encode_utf8(s).len()
}

/// What a scan reports of one access point that the logic reads.
#[derive(Debug)]
pub struct AccessPoint {
    pub ssid: String,
    pub channel: u8,
}

/// `r` is the channel of the first access point in `aps` named `ssid`, or
/// `None` when no access point has that name.
pub open spec fn picks_channel(aps: Seq<AccessPoint>, ssid: Seq<char>, r: Option<u8>) -> bool {
    match r {
        Some(c) => exists|i: int|
            0 <= i < aps.len() && #[trigger] aps[i].ssid@ == ssid && aps[i].channel == c && (forall|
                j: int,
            |
                0 <= j < i ==> #[trigger] aps[j].ssid@ != ssid),
        None => forall|i: int| 0 <= i < aps.len() ==> #[trigger] aps[i].ssid@ != ssid,
    }
}

/// The channel to configure for the network `ssid`: that of the first
/// scanned access point with this name, if any.
pub fn find_channel(aps: &Vec<AccessPoint>, ssid: &str) -> (r: Option<u8>)
    ensures
        picks_channel(aps@, ssid@, r),
{
    let target = String::from_str(ssid);
    let mut i: usize = 0;
    while i < aps.len()
        invariant
            0 <= i <= aps.len(),
            target@ == ssid@,
            forall|j: int| 0 <= j < i ==> #[trigger] aps@[j].ssid@ != ssid@,
        decreases aps.len() - i,
    {
        if aps[i].ssid == target {
            return Some(aps[i].channel);
        }
        i = i + 1;
    }
    None
}

/// A first match is unique: `picks_channel` names one result only.
pub proof fn lemma_picks_channel_unique(
    aps: Seq<AccessPoint>,
    ssid: Seq<char>,
    a: Option<u8>,
    b: Option<u8>,
)
    requires
        picks_channel(aps, ssid, a),
        picks_channel(aps, ssid, b),
    ensures
        a == b,
{
    if a is Some && b is Some {
        let i = choose|i: int|
            0 <= i < aps.len() && #[trigger] aps[i].ssid@ == ssid && aps[i].channel == a->0 && (
            forall|j: int| 0 <= j < i ==> #[trigger] aps[j].ssid@ != ssid);
        let k = choose|k: int|
            0 <= k < aps.len() && #[trigger] aps[k].ssid@ == ssid && aps[k].channel == b->0 && (
            forall|j: int| 0 <= j < k ==> #[trigger] aps[j].ssid@ != ssid);
        assert(i == k);
    } else if a is Some {
        let i = choose|i: int|
            0 <= i < aps.len() && #[trigger] aps[i].ssid@ == ssid && aps[i].channel == a->0 && (
            forall|j: int| 0 <= j < i ==> #[trigger] aps[j].ssid@ != ssid);
        assert(aps[i].ssid@ != ssid);
    } else if b is Some {
        let k = choose|k: int|
            0 <= k < aps.len() && #[trigger] aps[k].ssid@ == ssid && aps[k].channel == b->0 && (
            forall|j: int| 0 <= j < k ==> #[trigger] aps[j].ssid@ != ssid);
        assert(aps[k].ssid@ != ssid);
    }
}

/// The channel chosen is that of the earliest access point named `ssid`,
/// whatever later ones hold, and there is no channel when no access point
/// has that name.
pub proof fn lemma_first_match_chosen(aps: Seq<AccessPoint>, ssid: Seq<char>, i: int, r: Option<u8>)
    requires
        picks_channel(aps, ssid, r),
    ensures
        (0 <= i < aps.len() && aps[i].ssid@ == ssid && (forall|j: int|
            0 <= j < i ==> #[trigger] aps[j].ssid@ != ssid)) ==> r == Some(aps[i].channel),
        (forall|j: int| 0 <= j < aps.len() ==> #[trigger] aps[j].ssid@ != ssid) ==> r is None,
        r is None ==> (forall|j: int| 0 <= j < aps.len() ==> #[trigger] aps[j].ssid@ != ssid),
{
    if 0 <= i < aps.len() && aps[i].ssid@ == ssid && (forall|j: int|
        0 <= j < i ==> #[trigger] aps[j].ssid@ != ssid) {
        assert(picks_channel(aps, ssid, Some(aps[i].channel)));
        lemma_picks_channel_unique(aps, ssid, r, Some(aps[i].channel));
    }
    if r is Some {
        let k = choose|k: int|
            0 <= k < aps.len() && #[trigger] aps[k].ssid@ == ssid && aps[k].channel == r->0 && (
            forall|j: int| 0 <= j < k ==> #[trigger] aps[j].ssid@ != ssid);
        assert(aps[k].ssid@ == ssid);
    }
}

/// Whether the station is connected and holds an address other than 0.0.0.0.
pub open spec fn link_is_up(connected: bool, ip: [u8; 4]) -> bool {
    connected && !(ip[0] == 0 && ip[1] == 0 && ip[2] == 0 && ip[3] == 0)
}

/// The link is up exactly when the station is connected and some octet of
/// its address is not 0, that is, its address is not 0.0.0.0.
pub proof fn lemma_link_up_iff_address(connected: bool, ip: [u8; 4])
    ensures
        link_is_up(connected, ip) <==> connected && exists|i: int|
            0 <= i < 4 && #[trigger] ip@[i] != 0,
        !link_is_up(false, ip),
        !link_is_up(connected, [0u8, 0u8, 0u8, 0u8]),
        ip@ != seq![0u8, 0u8, 0u8, 0u8] ==> link_is_up(true, ip),
{
    if connected && !(ip[0] == 0 && ip[1] == 0 && ip[2] == 0 && ip[3] == 0) {
        if ip[0] != 0 {
            assert(ip@[0] != 0);
        } else if ip[1] != 0 {
            assert(ip@[1] != 0);
        } else if ip[2] != 0 {
            assert(ip@[2] != 0);
        } else {
            assert(ip@[3] != 0);
        }
    }
    if ip@ != seq![0u8, 0u8, 0u8, 0u8] {
        assert(!(ip[0] == 0 && ip[1] == 0 && ip[2] == 0 && ip[3] == 0)) by {
            if ip[0] == 0 && ip[1] == 0 && ip[2] == 0 && ip[3] == 0 {
                assert(ip@ =~= seq![0u8, 0u8, 0u8, 0u8]);
            }
        }
    }
}

/// The condition the connection waits for: connected to the access point
/// and given an address by DHCP (`ip` is the station's IPv4 address).
pub fn link_ready(connected: bool, ip: [u8; 4]) -> (r: bool)
    ensures
        r == link_is_up(connected, ip),
            r <==> connected && exists|i: int| 0 <= i < 4 && #[trigger] ip@[i] != 0,
{
    connected && !(ip[0] == 0 && ip[1] == 0 && ip[2] == 0 && ip[3] == 0)
}

/// Why connecting to the access point failed (other than an error of the
/// Wi-Fi stack itself, which is handed on as it is).
#[derive(PartialEq, Eq, Structural, Clone, Copy, Debug)]
pub enum ConnectError {
    /// The Wi-Fi stack did not report started within the timeout.
    NotStarted,
    /// No connection, or no DHCP lease, within the timeout.
    NoLease,
}

impl ConnectError {
    pub open spec fn text(self) -> Seq<char> {
        match self {
            ConnectError::NotStarted => "Wifi did not start"@,
            ConnectError::NoLease => "Wifi did not connect or did not receive a DHCP lease"@,
        }
    }

    /// The message the failure is reported with.
    pub fn message(&self) -> (r: &'static str)
        ensures
            r@ == self.text(),
            *self == ConnectError::NotStarted ==> r@ == "Wifi did not start"@,
            *self == ConnectError::NoLease ==> r@
                == "Wifi did not connect or did not receive a DHCP lease"@,
    {
        match *self {
            ConnectError::NotStarted => "Wifi did not start",
            ConnectError::NoLease => "Wifi did not connect or did not receive a DHCP lease",
        }
    }
}

/// Where the connection procedure stands.
#[derive(PartialEq, Eq, Structural, Clone, Copy, Debug)]
pub enum ConnectStage {
    /// Waiting for the Wi-Fi stack and its event loop to be created.
    Creating,
    /// Waiting for the scan of access points.
    Scanning,
    /// Waiting for the station configuration to be applied.
    Configuring,
    /// Waiting for the Wi-Fi stack to be started.
    Starting,
    /// Waiting for the stack to report started.
    WaitingStart,
    /// Waiting for the connect request to be issued.
    Connecting,
    /// Waiting for the link and an address.
    WaitingLink,
    /// Connected with an address: done.
    Connected,
    /// Gave up after a wait timed out.
    Failed(ConnectError),
    /// Stopped because a call on the Wi-Fi stack returned an error.
    Aborted,
}

/// What the Wi-Fi stack reports back after an action.
#[derive(Debug)]
pub enum ConnectEvent {
    /// The requested create, configure, start or connect call succeeded.
    Completed,
    /// The scan returned these access points.
    Scanned(Vec<AccessPoint>),
    /// The wait returned: `true` if its condition held before the timeout.
    Waited(bool),
    /// The requested call on the Wi-Fi stack (or the setting up of a wait)
    /// returned an error; the caller keeps the error.
    StackFailed,
}

/// What to do next on the Wi-Fi stack.
#[derive(Debug)]
pub enum ConnectAction {
    /// Take the system event loop and create the Wi-Fi stack on the modem.
    CreateStack,
    /// Scan the access points.
    Scan,
    /// Apply a station configuration with these credentials and channel.
    Configure { ssid: String, password: String, channel: Option<u8> },
    /// Start the Wi-Fi stack.
    Start,
    /// Wait, at most `timeout_secs` seconds, until the stack is started.
    WaitStarted { timeout_secs: u64 },
    /// Ask the stack to connect to the access point.
    Connect,
    /// Wait, at most `timeout_secs` seconds, until `link_ready` holds.
    WaitLink { timeout_secs: u64 },
    /// Connected: hand the Wi-Fi stack to the caller.
    Finish,
    /// Give up with this error.
    Fail(ConnectError),
    /// Give up with the error the Wi-Fi stack returned, unchanged.
    PassOn,
}

/// Whether an event reports success: a wait that timed out and a failed
/// call on the stack do not.
pub open spec fn event_ok(e: ConnectEvent) -> bool {
    match e {
        ConnectEvent::Waited(b) => b,
        ConnectEvent::StackFailed => false,
        _ => true,
    }
}

/// Whether the procedure has ended in stage `s`.
pub open spec fn is_final(s: ConnectStage) -> bool {
    s == ConnectStage::Connected || s is Failed || s == ConnectStage::Aborted
}

/// The stage that follows `s` on an answer other than a failed stack call
/// that succeeded (`ok`) or not.
pub open spec fn stage_after(s: ConnectStage, ok: bool) -> ConnectStage {
    match s {
        ConnectStage::Creating => ConnectStage::Scanning,
        ConnectStage::Scanning => ConnectStage::Configuring,
        ConnectStage::Configuring => ConnectStage::Starting,
        ConnectStage::Starting => ConnectStage::WaitingStart,
        ConnectStage::WaitingStart => if ok {
            ConnectStage::Connecting
        } else {
            ConnectStage::Failed(ConnectError::NotStarted)
        },
        ConnectStage::Connecting => ConnectStage::WaitingLink,
        ConnectStage::WaitingLink => if ok {
            ConnectStage::Connected
        } else {
            ConnectStage::Failed(ConnectError::NoLease)
        },
        _ => s,
    }
}

/// The decisions of connecting to a Wi-Fi access point as a station: create
/// the stack, scan, configure (with the channel of the access point found),
/// start, wait for the start, connect, wait for a DHCP lease; stop at the
/// first error of the stack and pass it on. The Wi-Fi stack itself is
/// driven by the caller, which performs each action and reports the event.
pub struct Connector {
    ssid: String,
    password: String,
    stage: ConnectStage,
}

impl Connector {
    pub closed spec fn ssid(self) -> Seq<char> {
        self.ssid@
    }

    pub closed spec fn password(self) -> Seq<char> {
        self.password@
    }

    pub closed spec fn stage(self) -> ConnectStage {
        self.stage
    }

    /// The credentials fit the station configuration.
    pub open spec fn credentials_fit(self) -> bool {
        &&& utf8_len(self.ssid()) <= SSID_MAX_BYTES
        &&& utf8_len(self.password()) <= PASSWORD_MAX_BYTES
    }

    /// Whether `e` is an answer to the action last asked for in this stage.
    pub open spec fn expects(self, e: ConnectEvent) -> bool {
        match self.stage() {
            ConnectStage::Scanning => e is Scanned || e is StackFailed,
            ConnectStage::Creating | ConnectStage::Configuring | ConnectStage::Starting
            | ConnectStage::Connecting => e is Completed || e is StackFailed,
            ConnectStage::WaitingStart | ConnectStage::WaitingLink => e is Waited || e is StackFailed,
            _ => false,
        }
    }

    /// Starts connecting to the network `ssid` with `password`; the first
    /// action is always `CreateStack`.
    pub fn new(ssid: &str, password: &str) -> (r: Connector)
        ensures
            r.ssid() == ssid@,
            r.password() == password@,
            r.stage() == ConnectStage::Creating,
    {
        Connector {
            ssid: String::from_str(ssid),
            password: String::from_str(password),
            stage: ConnectStage::Creating,
        }
    }

    /// The action that starts the procedure.
    pub fn first_action() -> (r: ConnectAction)
        ensures
            r is CreateStack,
    {
        ConnectAction::CreateStack
    }

    /// The stage the procedure is in.
    pub fn current_stage(&self) -> (r: ConnectStage)
        ensures
            r == self.stage(),
    {
        self.stage
    }

    /// Takes the event that answers the last action and decides the next one.
    pub fn step(&mut self, event: ConnectEvent) -> (action: ConnectAction)
        requires
            old(self).expects(event),
            event is Scanned ==> old(self).credentials_fit(),
        ensures
            final(self).ssid() == old(self).ssid(),
            final(self).password() == old(self).password(),
            event is StackFailed ==> final(self).stage() == ConnectStage::Aborted && action is PassOn,
            !(event is StackFailed) ==> final(self).stage() == stage_after(
                old(self).stage(),
                event_ok(event),
            ),
            !(event is StackFailed) ==> match (old(self).stage(), event) {
                (ConnectStage::Creating, _) => action is Scan,
                (ConnectStage::Scanning, ConnectEvent::Scanned(aps)) => {
                    &&& action matches ConnectAction::Configure { ssid, password, channel }
                    &&& ssid@ == old(self).ssid()
                    &&& password@ == old(self).password()
                    &&& utf8_len(ssid@) <= SSID_MAX_BYTES
                    &&& utf8_len(password@) <= PASSWORD_MAX_BYTES
                    &&& picks_channel(aps@, old(self).ssid(), channel)
                },
                (ConnectStage::Configuring, _) => action is Start,
                (ConnectStage::Starting, _) => action == (ConnectAction::WaitStarted {
                    timeout_secs: WAIT_TIMEOUT_SECS,
                }),
                (ConnectStage::WaitingStart, ConnectEvent::Waited(true)) => action is Connect,
                (ConnectStage::WaitingStart, _) => action == ConnectAction::Fail(
                    ConnectError::NotStarted,
                ),
                (ConnectStage::Connecting, _) => action == (ConnectAction::WaitLink {
                    timeout_secs: WAIT_TIMEOUT_SECS,
                }),
                (ConnectStage::WaitingLink, ConnectEvent::Waited(true)) => action is Finish,
                (_, _) => action == ConnectAction::Fail(ConnectError::NoLease),
            },
    {
        match event {
            ConnectEvent::StackFailed => {
                self.stage = ConnectStage::Aborted;
                ConnectAction::PassOn
            },
            ConnectEvent::Scanned(aps) => {
                let channel = find_channel(&aps, self.ssid.as_str());
                self.stage = ConnectStage::Configuring;
                ConnectAction::Configure {
                    ssid: self.ssid.clone(),
                    password: self.password.clone(),
                    channel,
                }
            },
            ConnectEvent::Completed => {
                match self.stage {
                    ConnectStage::Creating => {
                        self.stage = ConnectStage::Scanning;
                        ConnectAction::Scan
                    },
                    ConnectStage::Configuring => {
                        self.stage = ConnectStage::Starting;
                        ConnectAction::Start
                    },
                    ConnectStage::Starting => {
                        self.stage = ConnectStage::WaitingStart;
                        ConnectAction::WaitStarted { timeout_secs: WAIT_TIMEOUT_SECS }
                    },
                    _ => {
                        self.stage = ConnectStage::WaitingLink;
                        ConnectAction::WaitLink { timeout_secs: WAIT_TIMEOUT_SECS }
                    },
                }
            },
            ConnectEvent::Waited(ok) => {
                match self.stage {
                    ConnectStage::WaitingStart => {
                        if ok {
                            self.stage = ConnectStage::Connecting;
                            ConnectAction::Connect
                        } else {
                            self.stage = ConnectStage::Failed(ConnectError::NotStarted);
                            ConnectAction::Fail(ConnectError::NotStarted)
                        }
                    },
                    _ => {
                        if ok {
                            self.stage = ConnectStage::Connected;
                            ConnectAction::Finish
                        } else {
                            self.stage = ConnectStage::Failed(ConnectError::NoLease);
                            ConnectAction::Fail(ConnectError::NoLease)
                        }
                    },
                }
            },
        }
    }
}

/// The order of the procedure: create, scan, configure, start, wait for the
/// start (failing with `NotStarted` on a timeout), connect, wait for the
/// link (failing with `NoLease` on a timeout); final stages stay put.
pub proof fn lemma_stage_order(ok: bool, e: ConnectError)
    ensures
        stage_after(ConnectStage::Creating, ok) == ConnectStage::Scanning,
        stage_after(ConnectStage::Scanning, ok) == ConnectStage::Configuring,
        stage_after(ConnectStage::Configuring, ok) == ConnectStage::Starting,
        stage_after(ConnectStage::Starting, ok) == ConnectStage::WaitingStart,
        stage_after(ConnectStage::WaitingStart, true) == ConnectStage::Connecting,
        stage_after(ConnectStage::WaitingStart, false) == ConnectStage::Failed(
            ConnectError::NotStarted,
        ),
        stage_after(ConnectStage::Connecting, ok) == ConnectStage::WaitingLink,
        stage_after(ConnectStage::WaitingLink, true) == ConnectStage::Connected,
        stage_after(ConnectStage::WaitingLink, false) == ConnectStage::Failed(ConnectError::NoLease),
        stage_after(ConnectStage::Connected, ok) == ConnectStage::Connected,
        stage_after(ConnectStage::Failed(e), ok) == ConnectStage::Failed(e),
        event_ok(ConnectEvent::Waited(ok)) == ok,
        !event_ok(ConnectEvent::StackFailed),
        event_ok(ConnectEvent::Completed),
{
}

/// The stage after answering successfully `n` times from `s`.
pub open spec fn stage_after_successes(s: ConnectStage, n: nat) -> ConnectStage
    decreases n,
{
    if n == 0 {
        s
    } else {
        stage_after(stage_after_successes(s, (n - 1) as nat), true)
    }
}

/// When every call succeeds and both waits succeed, the procedure is
/// connected after seven answers (create, scan, configure, start, start
/// wait, connect, link wait), and not before.
pub proof fn lemma_connect_success_path()
    ensures
        stage_after_successes(ConnectStage::Creating, 7) == ConnectStage::Connected,
        forall|n: nat|
            n < 7 ==> stage_after_successes(ConnectStage::Creating, n) != ConnectStage::Connected,
{
    reveal_with_fuel(stage_after_successes, 8);
    assert forall|n: nat| n < 7 implies stage_after_successes(ConnectStage::Creating, n)
        != ConnectStage::Connected by {
        reveal_with_fuel(stage_after_successes, 8);
    }
}

/// Apart from an error of the stack, the procedure fails only when a wait
/// times out: when the stack is not started in time it fails with
/// `NotStarted`, when the link or lease does not come in time with `NoLease`.
pub proof fn lemma_connect_fails_only_on_timeout(s: ConnectStage, ok: bool, e: ConnectError)
    requires
        !is_final(s),
        stage_after(s, ok) == ConnectStage::Failed(e),
    ensures
        !ok,
        s == ConnectStage::WaitingStart ==> e == ConnectError::NotStarted,
        s == ConnectStage::WaitingLink ==> e == ConnectError::NoLease,
        s == ConnectStage::WaitingStart || s == ConnectStage::WaitingLink,
{
}

/// The first error of a stack call ends the procedure: it is taken in every
/// stage that waits for a call, and only a failed stack call leads to the
/// stage that passes the error on.
pub proof fn lemma_stack_error_stops(c: Connector, s: ConnectStage, ok: bool)
    ensures
        !is_final(c.stage()) ==> c.expects(ConnectEvent::StackFailed),
        stage_after(s, ok) != ConnectStage::Aborted || s == ConnectStage::Aborted,
{
}

/// Once connected, failed or aborted, the procedure takes no further event.
pub proof fn lemma_connect_ends(c: Connector, e: ConnectEvent)
    requires
        is_final(c.stage()),
    ensures
        !c.expects(e),
{
}

} // verus!
