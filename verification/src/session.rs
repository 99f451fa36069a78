use vstd::prelude::*;
use crate::text::{trim, str_trim, views, is_white, is_whitespace, chars_of};

verus! {

/// Why a session could not start.
#[derive(Debug)]
pub enum Error {
    Io(std::io::Error),
    ExtensionNotRegistered,
    Socket(crate::socket::Error),
    Mounter(crate::mounter::Error),
}

// What `pluginkit -m -i <id> --raw` prints names each registration of the
// host extension on an entry of the form `path = "<location>";`.  An entry
// starts at the start of the text or right after a newline, after any run of
// whitespace (which may span lines); the location is one or more characters
// other than a double quote (newlines included), closed by `";`.  Entries are
// read from the front, each after the end of the one before.

/// How many whitespace characters follow from index `i` of `s`.
pub open spec fn white_run(s: Seq<char>, i: int) -> nat
    decreases s.len() - i,
{
    if 0 <= i < s.len() && is_white(s[i]) {
        1 + white_run(s, i + 1)
    } else {
        0
    }
}

/// How many characters other than a double quote follow from index `i` of
/// `s`.
pub open spec fn unquoted_run(s: Seq<char>, i: int) -> nat
    decreases s.len() - i,
{
    if 0 <= i < s.len() && s[i] != '"' {
        1 + unquoted_run(s, i + 1)
    } else {
        0
    }
}

/// The key that opens an entry: `path = "`.
pub open spec fn path_key() -> Seq<char> {
    seq!['p', 'a', 't', 'h', ' ', '=', ' ', '"']
}

/// Index `p` of `s` starts a line: it is the start of the text or follows a
/// newline.
pub open spec fn line_start(s: Seq<char>, p: int) -> bool {
    p == 0 || (0 < p <= s.len() && s[p - 1] == '\n')
}

/// The entry read from index `p` of `s`, as the first and one past the last
/// index of its location: whitespace, the key, a location without double
/// quotes, then `";`.
pub open spec fn entry_at(s: Seq<char>, p: int) -> Option<(int, int)> {
    let q = p + white_run(s, p);
    let a = q + 8;
    let b = a + unquoted_run(s, a);
    if a <= s.len() && s.subrange(q, a) == path_key() && b > a && b + 1 < s.len() && s[b + 1] == ';' {
        Some((a, b))
    } else {
        None
    }
}

/// The locations of the entries of `s` read from index `p` on, in order.
pub open spec fn locations_from(s: Seq<char>, p: int) -> Seq<Seq<char>>
    decreases s.len() + 1 - p,
{
    if p < 0 || p > s.len() {
        Seq::empty()
    } else if line_start(s, p) && entry_at(s, p) is Some {
        let (a, b) = entry_at(s, p)->0;
        seq![s.subrange(a, b)] + locations_from(s, b + 2)
    } else {
        locations_from(s, p + 1)
    }
}

/// The locations of the host extension that `pluginkit` output `s` names,
/// in order.
pub open spec fn registered_locations(s: Seq<char>) -> Seq<Seq<char>> {
    locations_from(s, 0)
}

fn key_char(k: usize) -> (c: char)
    requires
        k < 8,
    ensures
        c == path_key()[k as int],
{
    if k == 0 {
        'p'
    } else if k == 1 {
        'a'
    } else if k == 2 {
        't'
    } else if k == 3 {
        'h'
    } else if k == 4 {
        ' '
    } else if k == 5 {
        '='
    } else if k == 6 {
        ' '
    } else {
        '"'
    }
}

/// Whether the key `path = "` stands at index `q` of `v`.
fn key_at(v: &Vec<char>, q: usize) -> (r: bool)
    requires
        q <= v@.len(),
    ensures
        r == (q + 8 <= v@.len() && v@.subrange(q as int, q + 8) == path_key()),
{
    if v.len() - q < 8 {
        return false;
    }
    let mut k: usize = 0;
    while k < 8
        invariant
            q + 8 <= v@.len(),
            v@.len() == v.len(),
            k <= 8,
            forall|j: int| 0 <= j < k ==> v@[q + j] == path_key()[j],
        decreases 8 - k,
    {
        let i = q + k;
        if v[i] != key_char(k) {
            assert(v@.subrange(q as int, q + 8)[k as int] != path_key()[k as int]);
            return false;
        }
        k = k + 1;
    }
    assert(v@.subrange(q as int, q + 8) =~= path_key());
    true
}

/// The entry read from index `p` of `v`.
fn entry_from(v: &Vec<char>, p: usize) -> (r: Option<(usize, usize)>)
    requires
        p <= v@.len(),
    ensures
        match r {
            Some((a, b)) => entry_at(v@, p as int) == Some((a as int, b as int)),
            None => entry_at(v@, p as int) is None,
        },
{
    let n = v.len();
    let mut q = p;
    while q < n && is_whitespace(v[q])
        invariant
            p <= q <= n,
            n == v@.len(),
            white_run(v@, p as int) == (q - p) + white_run(v@, q as int),
        decreases n - q,
    {
        q = q + 1;
    }
    if !key_at(v, q) {
        return None;
    }
    let a = q + 8;
    let mut b = a;
    while b < n && v[b] != '"'
        invariant
            a <= b <= n,
            n == v@.len(),
            unquoted_run(v@, a as int) == (b - a) + unquoted_run(v@, b as int),
        decreases n - b,
    {
        b = b + 1;
    }
    if b > a && n - b > 1 && v[b + 1] == ';' {
        Some((a, b))
    } else {
        None
    }
}

/// The locations of the host extension that `pluginkit` output `text`
/// names, in order.
pub fn registered_paths(text: &str) -> (r: Vec<String>)
    ensures
        views(r@) == registered_locations(text@),
{
    let v = chars_of(text);
    let n = v.len();
    let mut out: Vec<String> = Vec::new();
    let mut p: usize = 0;
    assert(views(out@) + locations_from(v@, 0) =~= locations_from(v@, 0));
    while p < n
        invariant
            p <= n,
            n == v@.len(),
            v@ == text@,
            registered_locations(text@) == views(out@) + locations_from(v@, p as int),
        decreases n - p,
    {
        if p == 0 || v[p - 1] == '\n' {
            match entry_from(&v, p) {
                Some((a, b)) => {
                    let ghost old_out = out@;
                    out.push(String::from_str(text.substring_char(a, b)));
                    proof {
                        assert(views(out@) =~= views(old_out).push(v@.subrange(a as int, b as int)));
                        assert(views(old_out) + (seq![v@.subrange(a as int, b as int)] + locations_from(v@, b + 2))
                            =~= views(out@) + locations_from(v@, b + 2));
                    }
                    p = b + 2;
                    continue;
                },
                None => {},
            }
        }
        p = p + 1;
    }
    proof {
        assert(entry_at(v@, n as int) is None);
        assert(locations_from(v@, n + 1) == Seq::<Seq<char>>::empty());
        assert(views(out@) + Seq::<Seq<char>>::empty() =~= views(out@));
    }
    out
}

/// Where the host extension is registered, given whether `pluginkit`
/// succeeded and the paths its output names, in order: the last of them,
/// or `ExtensionNotRegistered` when `pluginkit` failed or named none.
pub fn registration_outcome(pluginkit_succeeded: bool, paths: Vec<String>) -> (r: Result<String, Error>)
    ensures
        !pluginkit_succeeded || paths@.len() == 0 ==> r matches Err(Error::ExtensionNotRegistered),
        pluginkit_succeeded && paths@.len() > 0 ==> r == Ok::<String, Error>(paths@.last()),
{
    if !pluginkit_succeeded {
        return Err(Error::ExtensionNotRegistered);
    }
    let mut paths = paths;
    match paths.pop() {
        Some(p) => Ok(p),
        None => Err(Error::ExtensionNotRegistered),
    }
}

/// Where the host extension is registered, from whether `pluginkit`
/// succeeded and what it printed: the location of the last entry it lists.
pub fn registered_appex(pluginkit_succeeded: bool, stdout: &str) -> (r: Result<String, Error>)
    ensures
        !pluginkit_succeeded || registered_locations(stdout@).len() == 0 ==> r matches Err(
            Error::ExtensionNotRegistered,
        ),
        pluginkit_succeeded && registered_locations(stdout@).len() > 0 ==> (r matches Ok(s) && s@
            == registered_locations(stdout@).last()),
{
    if !pluginkit_succeeded {
        return Err(Error::ExtensionNotRegistered);
    }
    let paths = registered_paths(stdout);
    let r = registration_outcome(pluginkit_succeeded, paths);
    proof {
        if paths@.len() > 0 {
            assert(views(paths@)[paths@.len() - 1] == paths@.last()@);
        }
    }
    r
}

/// How a failed command is described: its error output without surrounding
/// whitespace, or its exit status when that output is blank.
pub open spec fn failure_description(stderr: Seq<char>, status: Seq<char>) -> Seq<char> {
    if trim(stderr).len() == 0 {
        status
    } else {
        trim(stderr)
    }
}

/// Describes a failed command from its error output and its exit status.
pub fn describe_failure(stderr: &str, status: &str) -> (r: String)
    ensures
        r@ == failure_description(stderr@, status@),
{
    let trimmed = str_trim(stderr);
    if trimmed.unicode_len() == 0 {
        String::from_str(status)
    } else {
        String::from_str(trimmed)
    }
}

/// Where the start of a session stands.
#[derive(Debug, Clone, Copy, PartialEq, Eq, Structural)]
pub enum SetupPhase {
    Start,
    StartingSocket,
    Mounting,
    StoppingSocket,
    Finished,
}

/// What the outside world reports back.
#[derive(Debug)]
pub enum SetupEvent {
    Begin,
    /// The IPC endpoint started, or failed to.
    SocketStarted(Result<(), crate::socket::Error>),
    /// The file system was mounted, or failed to be.
    Mounted(Result<(), crate::mounter::Error>),
    /// The IPC endpoint has stopped.
    SocketStopped,
}

/// What to do next.
#[derive(Debug)]
pub enum SetupAction {
    /// Start the IPC endpoint on this port.
    StartSocket(u16),
    /// Mount the file system.
    Mount,
    /// Stop the IPC endpoint.
    StopSocket,
    /// The session is up, or failed with this error.
    Finish(Result<(), Error>),
}

/// Starting a session: start the IPC endpoint, then mount; when mounting
/// fails, stop the endpoint before reporting the failure.
pub struct SessionSetup {
    pub port: u16,
    pub phase: SetupPhase,
    /// The mount failure to report once the endpoint has stopped.
    pub pending: Option<crate::mounter::Error>,
}

impl SessionSetup {
    /// The events that may come in each phase.
    pub open spec fn accepts(self, event: SetupEvent) -> bool {
        match self.phase {
            SetupPhase::Start => event is Begin,
            SetupPhase::StartingSocket => event is SocketStarted,
            SetupPhase::Mounting => event is Mounted,
            SetupPhase::StoppingSocket => event is SocketStopped && self.pending is Some,
            SetupPhase::Finished => false,
        }
    }

    /// A session start on `port` that has not begun.
    pub fn new(port: u16) -> (s: Self)
        ensures
            s.port == port,
            s.phase == SetupPhase::Start,
            s.pending is None,
    {
        SessionSetup { port, phase: SetupPhase::Start, pending: None }
    }

    /// Takes in what happened and says what to do next.
    pub fn step(&mut self, event: SetupEvent) -> (a: SetupAction)
        requires
            old(self).accepts(event),
        ensures
            final(self).port == old(self).port,
            event is Begin ==> final(self).phase == SetupPhase::StartingSocket && a == SetupAction::StartSocket(
                old(self).port,
            ),
            event matches SetupEvent::SocketStarted(r) ==> match r {
                Ok(()) => final(self).phase == SetupPhase::Mounting && a == SetupAction::Mount,
                Err(e) => final(self).phase == SetupPhase::Finished && a == SetupAction::Finish(
                    Err(Error::Socket(e)),
                ),
            },
            event matches SetupEvent::Mounted(r) ==> match r {
                Ok(()) => final(self).phase == SetupPhase::Finished && a == SetupAction::Finish(Ok(())),
                Err(e) => {
                    &&& final(self).phase == SetupPhase::StoppingSocket
                    &&& final(self).pending == Some(e)
                    &&& a == SetupAction::StopSocket
                },
            },
            event is SocketStopped ==> final(self).phase == SetupPhase::Finished && a
                == SetupAction::Finish(Err(Error::Mounter(old(self).pending->0))),
    {
        match event {
            SetupEvent::Begin => {
                self.phase = SetupPhase::StartingSocket;
                SetupAction::StartSocket(self.port)
            },
            SetupEvent::SocketStarted(r) => match r {
                Ok(()) => {
                    self.phase = SetupPhase::Mounting;
                    SetupAction::Mount
                },
                Err(e) => {
                    self.phase = SetupPhase::Finished;
                    SetupAction::Finish(Err(Error::Socket(e)))
                },
            },
            SetupEvent::Mounted(r) => match r {
                Ok(()) => {
                    self.phase = SetupPhase::Finished;
                    SetupAction::Finish(Ok(()))
                },
                Err(e) => {
                    self.phase = SetupPhase::StoppingSocket;
                    self.pending = Some(e);
                    SetupAction::StopSocket
                },
            },
            SetupEvent::SocketStopped => {
                self.phase = SetupPhase::Finished;
                match self.pending.take() {
                    Some(e) => SetupAction::Finish(Err(Error::Mounter(e))),
                    None => SetupAction::Finish(Ok(())),
                }
            },
        }
    }
}

proof fn lemma_white_run_to(s: Seq<char>, i: int, end: int)
    requires
        0 <= i <= end <= s.len(),
        forall|k: int| i <= k < end ==> is_white(#[trigger] s[k]),
        end < s.len() ==> !is_white(s[end]),
    ensures
        white_run(s, i) == end - i,
    decreases end - i,
{
    if i < end {
        lemma_white_run_to(s, i + 1, end);
    }
}

proof fn lemma_unquoted_run_to(s: Seq<char>, i: int, end: int)
    requires
        0 <= i <= end <= s.len(),
        forall|k: int| i <= k < end ==> #[trigger] s[k] != '"',
        end < s.len() ==> s[end] == '"',
    ensures
        unquoted_run(s, i) == end - i,
    decreases end - i,
{
    if i < end {
        lemma_unquoted_run_to(s, i + 1, end);
    }
}

/// Law: an entry `path = "<location>";`, after any whitespace, names its
/// location: output that holds just that names exactly that location, when
/// the location is not empty and holds no double quote.
pub proof fn lemma_single_entry(ws: Seq<char>, location: Seq<char>)
    requires
        forall|k: int| 0 <= k < ws.len() ==> is_white(#[trigger] ws[k]),
        location.len() > 0,
        forall|k: int| 0 <= k < location.len() ==> #[trigger] location[k] != '"',
    ensures
        registered_locations(ws + path_key() + location + seq!['"', ';']) == seq![location],
{
    let s = ws + path_key() + location + seq!['"', ';'];
    let q = ws.len() as int;
    let a = q + 8;
    let b = a + location.len();
    assert forall|k: int| 0 <= k < q implies is_white(#[trigger] s[k]) by {
        assert(s[k] == ws[k]);
    }
    assert(s[q] == 'p');
    lemma_white_run_to(s, 0, q);
    assert(s.subrange(q, a) =~= path_key());
    assert forall|k: int| a <= k < b implies #[trigger] s[k] != '"' by {
        assert(s[k] == location[k - a]);
    }
    assert(s[b] == '"');
    lemma_unquoted_run_to(s, a, b);
    assert(s[b + 1] == ';');
    assert(entry_at(s, 0) == Some((a, b)));
    assert(s.subrange(a, b) =~= location);
    assert(s.len() == b + 2);
    assert(!line_start(s, b + 2));
    assert(locations_from(s, b + 3) == Seq::<Seq<char>>::empty());
    assert(locations_from(s, b + 2) == Seq::<Seq<char>>::empty());
    assert(seq![location] + Seq::<Seq<char>>::empty() =~= seq![location]);
}

/// Law: text that is not at the start of a line does not open an entry: a
/// key preceded on its line by anything but whitespace names nothing.
pub proof fn lemma_entry_needs_line_start(s: Seq<char>, p: int)
    requires
        0 < p <= s.len(),
        s[p - 1] != '\n',
    ensures
        !line_start(s, p),
{
}

/// Law: a failed command is described by its error output without
/// surrounding whitespace, unless that leaves nothing, in which case by its
/// exit status.
pub proof fn lemma_failure_description(stderr: Seq<char>, status: Seq<char>)
    ensures
        trim(stderr).len() > 0 ==> failure_description(stderr, status) == trim(stderr),
        trim(stderr).len() == 0 ==> failure_description(stderr, status) == status,
{
}

} // verus!
