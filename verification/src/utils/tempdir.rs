//! The name of a scratch directory (materialized sketches and their build output).

use vstd::prelude::*;
use vstd::slice::slice_to_vec;
use vstd::string::*;
use vstd::utf8::*;

use crate::error::{Error, ErrorView};
use crate::text;
use crate::text::{cat3, decimal_of};
use crate::utils::counter;

verus! {

/// A scratch directory that was created.
pub struct TempDir {
    path: Vec<u8>,
}

impl View for TempDir {
    type V = Seq<u8>;

    closed spec fn view(&self) -> Seq<u8> {
        self.path@
    }
}

/// The path of the directory `name` directly in the temporary directory `base`, in the platform's
/// bytes. `base` ends with the platform's separator.
pub open spec fn path_of(base: Seq<u8>, name: Seq<char>) -> Seq<u8> {
    base + encode_utf8(name)
}

impl TempDir {
    /// The directory `name` directly in the temporary directory `base`, once the file system was
    /// asked to create it.
    pub fn new(base: &[u8], name: &str, created: Result<(), String>) -> (r: Result<TempDir, Error>)
        ensures
            match created {
                Ok(_) => r is Ok && r->Ok_0@ == path_of(base@, name@),
                Err(complaint) => r is Err && r->Err_0@ == ErrorView::Io(complaint@),
            },
    {
        match created {
            Ok(_) => {
                let mut path = slice_to_vec(base);
                let mut name = name.as_bytes_vec();
                path.append(&mut name);
                Ok(TempDir { path })
            },
            Err(complaint) => Err(Error::Io(complaint)),
        }
    }

    /// Where the directory is, in the platform's bytes.
    pub fn path(&self) -> (path: &[u8])
        ensures
            path@ == self@,
    {
        self.path.as_slice()
    }
}

/// `<prefix>-<pid>-<nanos>-<seq>`.
pub open spec fn name_of(prefix: Seq<char>, pid: nat, nanos: nat, seq: nat) -> Seq<char> {
    prefix + "-"@ + text::decimal(pid) + "-"@ + text::decimal(nanos) + "-"@ + text::decimal(seq)
}

/// Names a scratch directory after the process, the time since the epoch and a number that counts
/// up within the process.
pub fn temp_name(prefix: &str, pid: u32, nanos: u128, seq: u64) -> (name: String)
    ensures
        name@ == name_of(prefix@, pid as nat, nanos as nat, seq as nat),
{
    let with_pid = cat3(prefix, "-", decimal_of(pid as u128).as_str());
    let with_nanos = cat3(with_pid.as_str(), "-", decimal_of(nanos).as_str());
    cat3(with_nanos.as_str(), "-", decimal_of(seq as u128).as_str())
}

/// Hands out the names of a process's scratch directories, which tells those apart that are made
/// in quick succession. There is one per process.
pub struct TempNames {
    next: u64,
}

impl View for TempNames {
    type V = u64;

    closed spec fn view(&self) -> u64 {
        self.next
    }
}

impl TempNames {
    /// No name was handed out yet.
    pub fn new() -> (names: TempNames)
        ensures
            names@ == 0,
    {
        TempNames { next: 0 }
    }

    /// Hands out the next name. The numbers count up, and begin anew once all were used.
    pub fn fresh(&mut self, prefix: &str, pid: u32, nanos: u128) -> (name: String)
        ensures
            final(self)@ == counter::number_after(old(self)@),
            name@ == name_of(prefix@, pid as nat, nanos as nat, old(self)@ as nat),
    {
        let name = temp_name(prefix, pid, nanos, self.next);
        self.next = self.next.wrapping_add(1);
        name
    }
}

/// What a name is asked for with: a prefix, the process and the time.
pub struct Asked {
    pub prefix: Seq<char>,
    pub pid: nat,
    pub nanos: nat,
}

/// The name that is handed out to the call after `calls` others, which asks with `asked`.
pub open spec fn nth_name(asked: Asked, calls: nat) -> Seq<char> {
    name_of(asked.prefix, asked.pid, asked.nanos, counter::nth_number(calls) as nat)
}

/// What stands before and after the last dash is known from the whole.
proof fn lemma_last_dash(a: Seq<char>, b: Seq<char>, c: Seq<char>, d: Seq<char>)
    requires
        a + "-"@ + b == c + "-"@ + d,
        forall|i: int| 0 <= i < b.len() ==> text::is_digit(#[trigger] b[i]),
        forall|i: int| 0 <= i < d.len() ==> text::is_digit(#[trigger] d[i]),
    ensures
        a == c,
        b == d,
{
    reveal_strlit("-");
    let left = a + "-"@ + b;
    let right = c + "-"@ + d;
    assert(left[a.len() as int] == '-');
    assert(right[c.len() as int] == '-');
    assert(left.len() == a.len() + 1 + b.len());
    assert(right.len() == c.len() + 1 + d.len());
    if a.len() < c.len() {
        assert(left[c.len() as int] == b[c.len() - a.len() - 1]);
    }
    if c.len() < a.len() {
        assert(right[a.len() as int] == d[a.len() - c.len() - 1]);
    }
    assert(a =~= left.take(a.len() as int));
    assert(c =~= right.take(c.len() as int));
    assert(b =~= left.skip(a.len() as int + 1));
    assert(d =~= right.skip(c.len() as int + 1));
}

/// Two scratch directories have the same name only if they have the prefix, the process, the time
/// and the number in common.
pub proof fn names_are_unique(
    prefix1: Seq<char>,
    pid1: nat,
    nanos1: nat,
    seq1: nat,
    prefix2: Seq<char>,
    pid2: nat,
    nanos2: nat,
    seq2: nat,
)
    requires
        name_of(prefix1, pid1, nanos1, seq1) == name_of(prefix2, pid2, nanos2, seq2),
    ensures
        prefix1 == prefix2,
        pid1 == pid2,
        nanos1 == nanos2,
        seq1 == seq2,
{
    text::lemma_decimal_digits(pid1);
    text::lemma_decimal_digits(nanos1);
    text::lemma_decimal_digits(seq1);
    text::lemma_decimal_digits(pid2);
    text::lemma_decimal_digits(nanos2);
    text::lemma_decimal_digits(seq2);
    let p1 = prefix1 + "-"@ + text::decimal(pid1);
    let p2 = prefix2 + "-"@ + text::decimal(pid2);
    let n1 = p1 + "-"@ + text::decimal(nanos1);
    let n2 = p2 + "-"@ + text::decimal(nanos2);
    lemma_last_dash(n1, text::decimal(seq1), n2, text::decimal(seq2));
    lemma_last_dash(p1, text::decimal(nanos1), p2, text::decimal(nanos2));
    lemma_last_dash(prefix1, text::decimal(pid1), prefix2, text::decimal(pid2));
    text::lemma_decimal_injective(pid1, pid2);
    text::lemma_decimal_injective(nanos1, nanos2);
    text::lemma_decimal_injective(seq1, seq2);
}

/// No two calls in a process get the same name, whatever they ask with, unless all the numbers were
/// used between them: even with the same prefix, process and time.
pub proof fn no_name_is_handed_out_twice(a: Asked, i: nat, b: Asked, j: nat)
    requires
        i < j,
        j - i <= u64::MAX,
    ensures
        nth_name(a, i) != nth_name(b, j),
{
    counter::numbers_differ(i, j);
    let (m, n) = (counter::nth_number(i) as nat, counter::nth_number(j) as nat);
    if nth_name(a, i) == nth_name(b, j) {
        names_are_unique(a.prefix, a.pid, a.nanos, m, b.prefix, b.pid, b.nanos, n);
    }
}

/// What one text and then another encode to.
proof fn lemma_encode_concat(a: Seq<char>, b: Seq<char>)
    ensures
        encode_utf8(a + b) == encode_utf8(a) + encode_utf8(b),
    decreases a.len(),
{
    if a.len() == 0 {
        assert(a + b =~= b);
        assert(encode_utf8(a) + encode_utf8(b) =~= encode_utf8(b));
    } else {
        assert((a + b).drop_first() =~= a.drop_first() + b);
        lemma_encode_concat(a.drop_first(), b);
        assert(encode_utf8(a + b) =~= encode_utf8(a) + encode_utf8(b));
    }
}

/// The bytes of a decimal writing are digits, and tell the number.
proof fn lemma_decimal_bytes(n: nat)
    ensures
        forall|i: int|
            0 <= i < encode_utf8(text::decimal(n)).len() ==> #[trigger] encode_utf8(text::decimal(n))[i] != 45,
        decode_utf8(encode_utf8(text::decimal(n))) == text::decimal(n),
{
    let d = text::decimal(n);
    text::lemma_decimal_digits(n);
    assert(is_ascii_chars(d));
    is_ascii_chars_encode_utf8(d);
    encode_utf8_decode_utf8(d);
    assert forall|i: int| 0 <= i < encode_utf8(d).len() implies #[trigger] encode_utf8(d)[i] != 45 by {
        assert(text::is_digit(d[i]));
        assert(d[i] as u8 == encode_utf8(d)[i]);
    }
}

/// What stands before and after the last dash is known from all the bytes.
proof fn lemma_last_dash_byte(a: Seq<u8>, b: Seq<u8>, c: Seq<u8>, d: Seq<u8>)
    requires
        a + seq![45u8] + b == c + seq![45u8] + d,
        forall|i: int| 0 <= i < b.len() ==> #[trigger] b[i] != 45,
        forall|i: int| 0 <= i < d.len() ==> #[trigger] d[i] != 45,
    ensures
        a == c,
        b == d,
{
    let left = a + seq![45u8] + b;
    let right = c + seq![45u8] + d;
    assert(left[a.len() as int] == 45);
    assert(right[c.len() as int] == 45);
    assert(left.len() == a.len() + 1 + b.len());
    assert(right.len() == c.len() + 1 + d.len());
    if a.len() < c.len() {
        assert(left[c.len() as int] == b[c.len() - a.len() - 1]);
    }
    if c.len() < a.len() {
        assert(right[a.len() as int] == d[a.len() - c.len() - 1]);
    }
    assert(a =~= left.take(a.len() as int));
    assert(c =~= right.take(c.len() as int));
    assert(b =~= left.skip(a.len() as int + 1));
    assert(d =~= right.skip(c.len() as int + 1));
}

/// A path that ends with a dash and a number, as its bytes.
proof fn lemma_numbered_path(base: Seq<u8>, head: Seq<char>, n: nat)
    ensures
        path_of(base, head + "-"@ + text::decimal(n)) == path_of(base, head) + seq![45u8] + encode_utf8(
            text::decimal(n),
        ),
{
    reveal_strlit("-");
    lemma_encode_concat(head + "-"@, text::decimal(n));
    lemma_encode_concat(head, "-"@);
    assert(is_ascii_chars("-"@));
    is_ascii_chars_encode_utf8("-"@);
    assert(encode_utf8("-"@) =~= seq![45u8]);
    assert(path_of(base, head + "-"@ + text::decimal(n)) =~= path_of(base, head) + seq![45u8] + encode_utf8(
        text::decimal(n),
    ));
}

/// Two paths that end with a dash and a number are the same only if the numbers are, and what
/// stands before them.
proof fn lemma_numbered_paths(base1: Seq<u8>, head1: Seq<char>, n1: nat, base2: Seq<u8>, head2: Seq<char>, n2: nat)
    requires
        path_of(base1, head1 + "-"@ + text::decimal(n1)) == path_of(base2, head2 + "-"@ + text::decimal(n2)),
    ensures
        path_of(base1, head1) == path_of(base2, head2),
        n1 == n2,
{
    lemma_numbered_path(base1, head1, n1);
    lemma_numbered_path(base2, head2, n2);
    lemma_decimal_bytes(n1);
    lemma_decimal_bytes(n2);
    lemma_last_dash_byte(
        path_of(base1, head1),
        encode_utf8(text::decimal(n1)),
        path_of(base2, head2),
        encode_utf8(text::decimal(n2)),
    );
    text::lemma_decimal_injective(n1, n2);
}

/// Two scratch directories have the same path only if they have the process, the time and the
/// number in common, wherever their temporary directories are and whatever their prefixes.
pub proof fn paths_are_unique(
    base1: Seq<u8>,
    a: Asked,
    seq1: nat,
    base2: Seq<u8>,
    b: Asked,
    seq2: nat,
)
    requires
        path_of(base1, name_of(a.prefix, a.pid, a.nanos, seq1)) == path_of(
            base2,
            name_of(b.prefix, b.pid, b.nanos, seq2),
        ),
    ensures
        a.pid == b.pid,
        a.nanos == b.nanos,
        seq1 == seq2,
        path_of(base1, a.prefix) == path_of(base2, b.prefix),
{
    let p1 = a.prefix + "-"@ + text::decimal(a.pid);
    let p2 = b.prefix + "-"@ + text::decimal(b.pid);
    let n1 = p1 + "-"@ + text::decimal(a.nanos);
    let n2 = p2 + "-"@ + text::decimal(b.nanos);
    lemma_numbered_paths(base1, n1, seq1, base2, n2, seq2);
    lemma_numbered_paths(base1, p1, a.nanos, base2, p2, b.nanos);
    lemma_numbered_paths(base1, a.prefix, a.pid, base2, b.prefix, b.pid);
}

/// No two scratch directories of a process have the same path, wherever their temporary
/// directories are, unless all the numbers were used between them.
pub proof fn no_two_scratch_directories_share_a_path(
    a: Asked,
    i: nat,
    base_i: Seq<u8>,
    b: Asked,
    j: nat,
    base_j: Seq<u8>,
)
    requires
        i < j,
        j - i <= u64::MAX,
    ensures
        path_of(base_i, nth_name(a, i)) != path_of(base_j, nth_name(b, j)),
{
    counter::numbers_differ(i, j);
    let (m, n) = (counter::nth_number(i) as nat, counter::nth_number(j) as nat);
    if path_of(base_i, nth_name(a, i)) == path_of(base_j, nth_name(b, j)) {
        paths_are_unique(base_i, a, m, base_j, b, n);
    }
}

/// No two processes make scratch directories with the same path, either.
pub proof fn no_two_processes_share_a_path(
    a: Asked,
    i: nat,
    base_a: Seq<u8>,
    b: Asked,
    j: nat,
    base_b: Seq<u8>,
)
    requires
        a.pid != b.pid,
    ensures
        path_of(base_a, nth_name(a, i)) != path_of(base_b, nth_name(b, j)),
{
    let (m, n) = (counter::nth_number(i) as nat, counter::nth_number(j) as nat);
    if path_of(base_a, nth_name(a, i)) == path_of(base_b, nth_name(b, j)) {
        paths_are_unique(base_a, a, m, base_b, b, n);
    }
}

/// A scratch directory's name is its prefix, then the process, the time and the number, each in
/// decimal behind a dash.
pub proof fn a_name_tells_process_time_and_number(prefix: Seq<char>, pid: nat, nanos: nat, seq: nat)
    ensures
        exists|p: Seq<char>, t: Seq<char>, n: Seq<char>|
            name_of(prefix, pid, nanos, seq) == #[trigger] (prefix + seq!['-'] + p + seq!['-'] + t + seq!['-'] + n)
                && text::writes_number(p, pid) && text::writes_number(t, nanos) && text::writes_number(n, seq),
{
    reveal_strlit("-");
    let (p, t, n) = (text::decimal(pid), text::decimal(nanos), text::decimal(seq));
    text::a_number_has_one_writing(p, pid);
    text::a_number_has_one_writing(t, nanos);
    text::a_number_has_one_writing(n, seq);
    assert("-"@ =~= seq!['-']);
    assert(name_of(prefix, pid, nanos, seq) == prefix + seq!['-'] + p + seq!['-'] + t + seq!['-'] + n);
}

/// A scratch directory is there just where the file system created it, directly in the temporary
/// directory and under its name.
pub proof fn a_scratch_directory_is_where_it_was_created(
    base: &[u8],
    name: &str,
    created: Result<(), String>,
    r: Result<TempDir, Error>,
)
    requires
        call_ensures(TempDir::new, (base, name, created), r),
    ensures
        r is Ok <==> created is Ok,
        r matches Ok(dir) ==> dir@ == base@ + encode_utf8(name@),
        r matches Err(e) ==> e@.message() == created->Err_0@,
{
}

} // verus!
