//! The decisions of the adapter bridge: which command to run, what the
//! adapter prints and returns, and how its output is read back.
use vstd::prelude::*;
use crate::snapshot::opt_view;

verus! {

/// Unicode `White_Space`, the characters that trimming removes.
pub open spec fn is_white_space(c: char) -> bool {
    let u = c as u32;
    ||| 0x9 <= u <= 0xD
    ||| u == 0x20
    ||| u == 0x85
    ||| u == 0xA0
    ||| u == 0x1680
    ||| 0x2000 <= u <= 0x200A
    ||| u == 0x2028
    ||| u == 0x2029
    ||| u == 0x202F
    ||| u == 0x205F
    ||| u == 0x3000
}

/// Whether `c` is white space in Unicode's sense.
pub fn white_space(c: char) -> (r: bool)
    ensures
        r == is_white_space(c),
{
    let u = c as u32;
    (0x9 <= u && u <= 0xD) || u == 0x20 || u == 0x85 || u == 0xA0 || u == 0x1680 || (0x2000 <= u
        && u <= 0x200A) || u == 0x2028 || u == 0x2029 || u == 0x202F || u == 0x205F || u == 0x3000
}

/// Number of leading white-space characters of `s`.
pub open spec fn leading(s: Seq<char>) -> nat
    decreases s.len(),
{
    if s.len() > 0 && is_white_space(s[0]) {
        1 + leading(s.drop_first())
    } else {
        0
    }
}

/// Number of trailing white-space characters of `s`.
pub open spec fn trailing(s: Seq<char>) -> nat
    decreases s.len(),
{
    if s.len() > 0 && is_white_space(s.last()) {
        1 + trailing(s.drop_last())
    } else {
        0
    }
}

/// `s` without leading and trailing white space.
pub open spec fn trimmed(s: Seq<char>) -> Seq<char> {
    let t = s.subrange(leading(s) as int, s.len() as int);
    t.subrange(0, t.len() - trailing(t))
}

proof fn lemma_leading_is(s: Seq<char>, i: int)
    requires
        0 <= i <= s.len(),
        forall|j: int| 0 <= j < i ==> is_white_space(#[trigger] s[j]),
        i == s.len() || !is_white_space(s[i]),
    ensures
        leading(s) == i,
    decreases i,
{
    if i > 0 {
        let d = s.drop_first();
        assert forall|j: int| 0 <= j < i - 1 implies is_white_space(#[trigger] d[j]) by {
            assert(d[j] == s[j + 1]);
        }
        lemma_leading_is(d, i - 1);
    }
}

proof fn lemma_trailing_is(s: Seq<char>, k: int)
    requires
        0 <= k <= s.len(),
        forall|j: int| s.len() - k <= j < s.len() ==> is_white_space(#[trigger] s[j]),
        k == s.len() || !is_white_space(s[s.len() - k - 1]),
    ensures
        trailing(s) == k,
    decreases k,
{
    if k > 0 {
        let d = s.drop_last();
        assert forall|j: int| d.len() - (k - 1) <= j < d.len() implies is_white_space(
            #[trigger] d[j],
        ) by {
            assert(d[j] == s[j]);
        }
        lemma_trailing_is(d, k - 1);
    }
}

/// `s` without leading and trailing white space.
pub fn trim_text(s: &str) -> (r: &str)
    ensures
        r@ == trimmed(s@),
{
    let n: usize = s.unicode_len();
    let mut i: usize = 0;
    while i < n && white_space(s.get_char(i))
        invariant
            n == s@.len(),
            i <= n,
            forall|j: int| 0 <= j < i ==> is_white_space(#[trigger] s@[j]),
        decreases n - i,
    {
        i = i + 1;
    }
    proof {
        lemma_leading_is(s@, i as int);
    }
    let t = s.substring_char(i, n);
    let m: usize = n - i;
    let mut k: usize = 0;
    while k < m && white_space(t.get_char(m - k - 1))
        invariant
            m == t@.len(),
            k <= m,
            forall|j: int| m - k <= j < m ==> is_white_space(#[trigger] t@[j]),
        decreases m - k,
    {
        k = k + 1;
    }
    proof {
        lemma_trailing_is(t@, k as int);
    }
    t.substring_char(0, m - k)
}

/// What the adapter prints when no snapshot is available.
pub open spec fn null_text() -> Seq<char> {
    seq!['n', 'u', 'l', 'l']
}

fn is_null_text(t: &str) -> (r: bool)
    ensures
        r == (t@ == null_text()),
{
    if t.unicode_len() != 4 {
        return false;
    }
    let r = t.get_char(0) == 'n' && t.get_char(1) == 'u' && t.get_char(2) == 'l' && t.get_char(3)
        == 'l';
    assert(r ==> t@ =~= null_text());
    r
}

/// The snapshot text in the adapter's output: none when the adapter failed,
/// printed nothing but white space, or printed `null`; otherwise what it
/// printed, trimmed.
pub open spec fn framed(success: bool, out: Seq<char>) -> Option<Seq<char>> {
    if !success {
        None
    } else if trimmed(out).len() == 0 || trimmed(out) == null_text() {
        None
    } else {
        Some(trimmed(out))
    }
}

/// Reads the adapter's answer to `get`: the snapshot's JSON text, if it gave
/// one.
pub fn frame_adapter_output(success: bool, stdout: &str) -> (r: Option<String>)
    ensures
        opt_view(r) == framed(success, stdout@),
{
    if !success {
        return None;
    }
    let t = trim_text(stdout);
    if t.unicode_len() == 0 || is_null_text(t) {
        None
    } else {
        Some(String::from_str(t))
    }
}

/// The line the adapter prints for `get`: the serialized snapshot, or `null`
/// when there is none or it could not be serialized.
pub fn adapter_output_line(serialized: Option<String>) -> (r: String)
    ensures
        r@ == (match serialized {
            Some(s) => s@,
            None => null_text(),
        }),
{
    match serialized {
        Some(s) => s,
        None => {
            let r = String::from_str("null");
            proof {
                reveal_strlit("null");
            }
            assert(r@ =~= null_text());
            r
        },
    }
}

/// The adapter's exit status for `test`: zero when a snapshot was obtained or
/// the access probe succeeded, one otherwise.
pub fn adapter_test_status(snapshot_obtained: bool, probe_ok: bool) -> (r: i32)
    ensures
        r == (if snapshot_obtained || probe_ok { 0i32 } else { 1i32 }),
{
    if snapshot_obtained || probe_ok {
        0
    } else {
        1
    }
}

/// Whether the adapter answered `test` with success: exit status zero.
pub fn access_granted(status: Option<i32>) -> (r: bool)
    ensures
        r == (status == Some(0i32)),
{
    match status {
        Some(code) => code == 0,
        None => false,
    }
}

/// Whether the embedded artifact must be written out: no cached copy, or one
/// whose length differs from the embedded one.
pub fn needs_extract(cached_len: Option<u64>, embedded_len: u64) -> (r: bool)
    ensures
        r == (match cached_len {
            Some(l) => l != embedded_len,
            None => true,
        }),
{
    match cached_len {
        Some(l) => l != embedded_len,
        None => true,
    }
}

/// The commands the adapter understands.
#[derive(Clone, Copy, PartialEq, Eq, Structural, Debug)]
pub enum Command {
    /// Print the current snapshot.
    Get,
    /// Exit with success when the media service can be reached.
    Test,
}

/// The word for a command on the loader's command line.
pub open spec fn command_word(c: Command) -> Seq<char> {
    match c {
        Command::Get => "get"@,
        Command::Test => "test"@,
    }
}

/// The exported symbol that carries out a command.
pub open spec fn entry_symbol(c: Command) -> Seq<char> {
    match c {
        Command::Get => "adapter_get_env"@,
        Command::Test => "adapter_test"@,
    }
}

impl Command {
    /// The word passed to the loader for this command.
    pub fn word(self) -> (r: &'static str)
        ensures
            r@ == command_word(self),
    {
        match self {
            Command::Get => "get",
            Command::Test => "test",
        }
    }

    /// The artifact's exported entry point that carries out this command.
    pub fn symbol(self) -> (r: &'static str)
        ensures
            r@ == entry_symbol(self),
    {
        match self {
            Command::Get => "adapter_get_env",
            Command::Test => "adapter_test",
        }
    }
}

} // verus!
