//! Text primitives: decimal rendering, whitespace trimming, ASCII
//! case-insensitive comparison, and the small command-line splitters the
//! dispatcher is built on.

use vstd::prelude::*;

verus! {

// ---------------------------------------------------------------------------
// Character classes
// ---------------------------------------------------------------------------

/// The whitespace characters the console trims around input.
pub open spec fn is_ws(c: char) -> bool {
    c == ' ' || c == '\t' || c == '\r' || c == '\n'
}

pub open spec fn is_digit(c: char) -> bool {
    '0' <= c && c <= '9'
}

pub open spec fn digit_val(c: char) -> nat {
    if c == '1' {
        1
    } else if c == '2' {
        2
    } else if c == '3' {
        3
    } else if c == '4' {
        4
    } else if c == '5' {
        5
    } else if c == '6' {
        6
    } else if c == '7' {
        7
    } else if c == '8' {
        8
    } else if c == '9' {
        9
    } else {
        0
    }
}

pub open spec fn dec_digit(d: nat) -> char {
    if d == 1 {
        '1'
    } else if d == 2 {
        '2'
    } else if d == 3 {
        '3'
    } else if d == 4 {
        '4'
    } else if d == 5 {
        '5'
    } else if d == 6 {
        '6'
    } else if d == 7 {
        '7'
    } else if d == 8 {
        '8'
    } else if d == 9 {
        '9'
    } else {
        '0'
    }
}

// ---------------------------------------------------------------------------
// Decimal rendering and parsing
// ---------------------------------------------------------------------------

/// The decimal digits of `n`, most significant first, with no leading zeros
/// (a single `'0'` for zero).
pub open spec fn dec_str(n: nat) -> Seq<char>
    decreases n,
{
    if n < 10 {
        seq![dec_digit(n)]
    } else {
        dec_str(n / 10).push(dec_digit(n % 10))
    }
}

/// The value of a digit string read in base ten.
pub open spec fn dec_val(s: Seq<char>) -> nat
    decreases s.len(),
{
    if s.len() == 0 {
        0
    } else {
        dec_val(s.drop_last()) * 10 + digit_val(s.last())
    }
}

pub open spec fn all_digits(s: Seq<char>) -> bool {
    forall|i: int| 0 <= i < s.len() ==> is_digit(#[trigger] s[i])
}

/// What `/port` accepts: a non-empty, all-digit argument whose value fits in
/// sixteen bits. Leading zeros are allowed.
pub open spec fn port_spec(s: Seq<char>) -> Option<u16> {
    if s.len() > 0 && all_digits(s) && dec_val(s) <= 65535 {
        Some(dec_val(s) as u16)
    } else {
        None
    }
}

// ---------------------------------------------------------------------------
// Trimming
// ---------------------------------------------------------------------------

pub open spec fn trim_front(s: Seq<char>) -> Seq<char>
    decreases s.len(),
{
    if s.len() > 0 && is_ws(s.first()) {
        trim_front(s.drop_first())
    } else {
        s
    }
}

pub open spec fn trim_back(s: Seq<char>) -> Seq<char>
    decreases s.len(),
{
    if s.len() > 0 && is_ws(s.last()) {
        trim_back(s.drop_last())
    } else {
        s
    }
}

/// Whitespace removed from both ends.
pub open spec fn trim_spec(s: Seq<char>) -> Seq<char> {
    trim_back(trim_front(s))
}

// ---------------------------------------------------------------------------
// Case-insensitive comparison (ASCII letters only)
// ---------------------------------------------------------------------------

pub open spec fn eqi_char(a: char, b: char) -> bool {
    a == b || ('A' <= a && a <= 'Z' && b as u32 == a as u32 + 32) || ('A' <= b && b <= 'Z'
        && a as u32 == b as u32 + 32)
}

/// Equality up to ASCII letter case, as a nick comparison uses it.
pub open spec fn eqi_str(a: Seq<char>, b: Seq<char>) -> bool {
    a.len() == b.len() && forall|i: int| 0 <= i < a.len() ==> eqi_char(#[trigger] a[i], b[i])
}

// ---------------------------------------------------------------------------
// Command splitting and id truncation
// ---------------------------------------------------------------------------

/// Index of the first space in `s`, or `s.len()` if there is none.
pub open spec fn space_idx(s: Seq<char>) -> int
    decreases s.len(),
{
    if s.len() == 0 {
        0
    } else if s.first() == ' ' {
        0
    } else {
        1 + space_idx(s.drop_first())
    }
}

/// The command name before the first space.
pub open spec fn cmd_of(s: Seq<char>) -> Seq<char> {
    s.subrange(0, space_idx(s))
}

/// The argument text after the first space, its own leading whitespace
/// dropped; empty when there is no space.
pub open spec fn rest_of(s: Seq<char>) -> Seq<char> {
    if space_idx(s) < s.len() {
        trim_front(s.subrange(space_idx(s) + 1, s.len() as int))
    } else {
        Seq::<char>::empty()
    }
}

/// The argument text after the first space, exactly as it stands; empty
/// when there is no space.
pub open spec fn raw_rest(s: Seq<char>) -> Seq<char> {
    if space_idx(s) < s.len() {
        s.subrange(space_idx(s) + 1, s.len() as int)
    } else {
        Seq::<char>::empty()
    }
}

/// An id cut to at most `max` characters, a single ellipsis appended when it
/// was longer.
pub open spec fn trunc_spec(s: Seq<char>, max: nat) -> Seq<char> {
    if s.len() <= max {
        s
    } else {
        s.subrange(0, max as int).push('…')
    }
}

/// A number padded with spaces on the left to at least three characters, as
/// the enumerated peer list prints it.
pub open spec fn pad3(n: nat) -> Seq<char> {
    if n < 10 {
        seq![' ', ' '] + dec_str(n)
    } else if n < 100 {
        seq![' '] + dec_str(n)
    } else {
        dec_str(n)
    }
}

// ---------------------------------------------------------------------------
// Trusted wrappers over std string operations vstd leaves unspecified
// ---------------------------------------------------------------------------

/// Relies on std's `String::push`: appends exactly the given character.
#[verifier::external_body]
pub fn push_char(s: &mut String, c: char)
    ensures
        final(s)@ == old(s)@.push(c),
{
    s.push(c);
}

/// Relies on std's `String::pop`: removes and returns the last character, or
/// leaves an empty string unchanged.
#[verifier::external_body]
pub fn pop_char(s: &mut String) -> (r: Option<char>)
    ensures
        old(s)@.len() == 0 ==> r is None && final(s)@ == old(s)@,
        old(s)@.len() > 0 ==> r == Some(old(s)@.last()) && final(s)@ == old(s)@.drop_last(),
{
    s.pop()
}

// ---------------------------------------------------------------------------
// Executable text functions
// ---------------------------------------------------------------------------

/// A copy of a line list; `String` clones keep the value exactly.
pub fn clone_lines(v: &Vec<String>) -> (r: Vec<String>)
    ensures
        r@ == v@,
{
    let mut r: Vec<String> = Vec::new();
    let n = v.len();
    let mut i: usize = 0;
    while i < n
        invariant
            n == v.len(),
            0 <= i <= n,
            r@ =~= v@.subrange(0, i as int),
        decreases n - i,
    {
        r.push(v[i].clone());
        i += 1;
        proof {
            assert(r@ =~= v@.subrange(0, i as int));
        }
    }
    proof {
        assert(r@ =~= v@);
    }
    r
}

pub fn cat2(a: &str, b: &str) -> (r: String)
    ensures
        r@ == a@ + b@,
{
    let mut s = String::from_str(a);
    s.append(b);
    s
}

pub fn cat3(a: &str, b: &str, c: &str) -> (r: String)
    ensures
        r@ == a@ + b@ + c@,
{
    let mut s = String::from_str(a);
    s.append(b);
    s.append(c);
    s
}

pub fn cat4(a: &str, b: &str, c: &str, d: &str) -> (r: String)
    ensures
        r@ == a@ + b@ + c@ + d@,
{
    let mut s = String::from_str(a);
    s.append(b);
    s.append(c);
    s.append(d);
    s
}

pub fn cat5(a: &str, b: &str, c: &str, d: &str, e: &str) -> (r: String)
    ensures
        r@ == a@ + b@ + c@ + d@ + e@,
{
    let mut s = String::from_str(a);
    s.append(b);
    s.append(c);
    s.append(d);
    s.append(e);
    s
}

pub fn cat6(a: &str, b: &str, c: &str, d: &str, e: &str, f: &str) -> (r: String)
    ensures
        r@ == a@ + b@ + c@ + d@ + e@ + f@,
{
    let mut s = String::from_str(a);
    s.append(b);
    s.append(c);
    s.append(d);
    s.append(e);
    s.append(f);
    s
}

pub fn cat7(a: &str, b: &str, c: &str, d: &str, e: &str, f: &str, g: &str) -> (r: String)
    ensures
        r@ == a@ + b@ + c@ + d@ + e@ + f@ + g@,
{
    let mut s = String::from_str(a);
    s.append(b);
    s.append(c);
    s.append(d);
    s.append(e);
    s.append(f);
    s.append(g);
    s
}

pub fn cat8(a: &str, b: &str, c: &str, d: &str, e: &str, f: &str, g: &str, h: &str) -> (r:
    String)
    ensures
        r@ == a@ + b@ + c@ + d@ + e@ + f@ + g@ + h@,
{
    let mut s = String::from_str(a);
    s.append(b);
    s.append(c);
    s.append(d);
    s.append(e);
    s.append(f);
    s.append(g);
    s.append(h);
    s
}

pub fn str_eq(a: &str, b: &str) -> (r: bool)
    ensures
        r == (a@ == b@),
{
    let n = a.unicode_len();
    if n != b.unicode_len() {
        return false;
    }
    let mut i: usize = 0;
    while i < n
        invariant
            n == a@.len(),
            n == b@.len(),
            0 <= i <= n,
            forall|j: int| 0 <= j < i ==> a@[j] == b@[j],
        decreases n - i,
    {
        if a.get_char(i) != b.get_char(i) {
            return false;
        }
        i += 1;
    }
    proof {
        assert(a@ =~= b@);
    }
    true
}

fn digit_char(d: u8) -> (c: char)
    requires
        d < 10,
    ensures
        c == dec_digit(d as nat),
{
    if d == 1 {
        '1'
    } else if d == 2 {
        '2'
    } else if d == 3 {
        '3'
    } else if d == 4 {
        '4'
    } else if d == 5 {
        '5'
    } else if d == 6 {
        '6'
    } else if d == 7 {
        '7'
    } else if d == 8 {
        '8'
    } else if d == 9 {
        '9'
    } else {
        '0'
    }
}

/// Appends the decimal digits of `n` to `s`.
pub fn push_dec(s: &mut String, n: u64)
    ensures
        final(s)@ == old(s)@ + dec_str(n as nat),
    decreases n,
{
    if n < 10 {
        push_char(s, digit_char(n as u8));
        proof {
            assert(s@ =~= old(s)@ + dec_str(n as nat));
        }
    } else {
        push_dec(s, n / 10);
        push_char(s, digit_char((n % 10) as u8));
        proof {
            assert(s@ =~= old(s)@ + dec_str(n as nat));
        }
    }
}

pub fn dec_string(n: u64) -> (r: String)
    ensures
        r@ == dec_str(n as nat),
{
    let mut s = String::new();
    push_dec(&mut s, n);
    proof {
        assert(s@ =~= dec_str(n as nat));
    }
    s
}

/// Appends `n` padded on the left to at least three characters.
pub fn push_pad3(s: &mut String, n: u64)
    ensures
        final(s)@ == old(s)@ + pad3(n as nat),
{
    if n < 10 {
        push_char(s, ' ');
        push_char(s, ' ');
    } else if n < 100 {
        push_char(s, ' ');
    }
    push_dec(s, n);
    proof {
        assert(s@ =~= old(s)@ + pad3(n as nat));
    }
}

fn is_ws_exec(c: char) -> (r: bool)
    ensures
        r == is_ws(c),
{
    c == ' ' || c == '\t' || c == '\r' || c == '\n'
}

proof fn lemma_trim_front_at(s: Seq<char>, k: int)
    requires
        0 <= k <= s.len(),
        forall|i: int| 0 <= i < k ==> is_ws(#[trigger] s[i]),
        k == s.len() || !is_ws(s[k]),
    ensures
        trim_front(s) == s.subrange(k, s.len() as int),
    decreases k,
{
    if k == 0 {
        assert(s.subrange(0, s.len() as int) =~= s);
    } else {
        let t = s.drop_first();
        assert(forall|i: int| 0 <= i < k - 1 ==> is_ws(#[trigger] t[i]));
        lemma_trim_front_at(t, k - 1);
        assert(t.subrange(k - 1, t.len() as int) =~= s.subrange(k, s.len() as int));
    }
}

proof fn lemma_trim_back_at(s: Seq<char>, k: int)
    requires
        0 <= k <= s.len(),
        forall|i: int| k <= i < s.len() ==> is_ws(#[trigger] s[i]),
        k == 0 || !is_ws(s[k - 1]),
    ensures
        trim_back(s) == s.subrange(0, k),
    decreases s.len(),
{
    if k == s.len() {
        if s.len() == 0 {
            assert(s.subrange(0, 0) =~= s);
        } else {
            assert(!is_ws(s.last()));
            assert(s.subrange(0, k) =~= s);
        }
    } else {
        let t = s.drop_last();
        lemma_trim_back_at(t, k);
        assert(t.subrange(0, k) =~= s.subrange(0, k));
    }
}

/// A copy of `s` with surrounding whitespace removed.
pub fn trim_str(s: &str) -> (r: String)
    ensures
        r@ == trim_spec(s@),
{
    let n = s.unicode_len();
    let mut start: usize = 0;
    while start < n && is_ws_exec(s.get_char(start))
        invariant
            n == s@.len(),
            0 <= start <= n,
            forall|i: int| 0 <= i < start ==> is_ws(#[trigger] s@[i]),
        decreases n - start,
    {
        start += 1;
    }
    proof {
        lemma_trim_front_at(s@, start as int);
    }
    let mut end: usize = n;
    while end > start && is_ws_exec(s.get_char(end - 1))
        invariant
            n == s@.len(),
            start <= end <= n,
            forall|i: int| end <= i < n ==> is_ws(#[trigger] s@[i]),
        decreases end,
    {
        end -= 1;
    }
    let sub = s.substring_char(start, end);
    proof {
        let f = s@.subrange(start as int, n as int);
        assert(forall|i: int| end - start <= i < f.len() ==> is_ws(#[trigger] f[i]));
        lemma_trim_back_at(f, end - start);
        assert(f.subrange(0, end - start) =~= s@.subrange(start as int, end as int));
    }
    sub.to_owned()
}

proof fn lemma_space_idx_at(s: Seq<char>, k: int)
    requires
        0 <= k <= s.len(),
        forall|i: int| 0 <= i < k ==> #[trigger] s[i] != ' ',
        k == s.len() || s[k] == ' ',
    ensures
        space_idx(s) == k,
    decreases k,
{
    if k == 0 {
    } else {
        let t = s.drop_first();
        lemma_space_idx_at(t, k - 1);
    }
}

/// Splits a command line at its first space into the command name and the
/// argument text, the latter with leading whitespace dropped.
pub fn split_command<'a>(input: &'a str) -> (r: (&'a str, &'a str))
    ensures
        r.0@ == cmd_of(input@),
        r.1@ == rest_of(input@),
{
    let n = input.unicode_len();
    let mut i: usize = 0;
    while i < n && input.get_char(i) != ' '
        invariant
            n == input@.len(),
            0 <= i <= n,
            forall|j: int| 0 <= j < i ==> #[trigger] input@[j] != ' ',
        decreases n - i,
    {
        i += 1;
    }
    proof {
        lemma_space_idx_at(input@, i as int);
    }
    let cmd = input.substring_char(0, i);
    if i < n {
        let tail = input.substring_char(i + 1, n);
        let mut t: usize = 0;
        let m = n - i - 1;
        while t < m && is_ws_exec(tail.get_char(t))
            invariant
                m == tail@.len(),
                0 <= t <= m,
                forall|j: int| 0 <= j < t ==> is_ws(#[trigger] tail@[j]),
            decreases m - t,
        {
            t += 1;
        }
        proof {
            lemma_trim_front_at(tail@, t as int);
        }
        let rest = tail.substring_char(t, m);
        (cmd, rest)
    } else {
        let rest = input.substring_char(n, n);
        proof {
            assert(rest@ =~= Seq::<char>::empty());
        }
        (cmd, rest)
    }
}

/// Whether the text holds a space at all.
pub fn has_space(s: &str) -> (r: bool)
    ensures
        r == (space_idx(s@) < s@.len()),
        space_idx(s@) <= s@.len(),
{
    let n = s.unicode_len();
    let mut i: usize = 0;
    while i < n && s.get_char(i) != ' '
        invariant
            n == s@.len(),
            0 <= i <= n,
            forall|j: int| 0 <= j < i ==> #[trigger] s@[j] != ' ',
        decreases n - i,
    {
        i += 1;
    }
    proof {
        lemma_space_idx_at(s@, i as int);
    }
    i < n
}

/// Splits at the first space, keeping the suffix exactly as it stands
/// (no whitespace dropped).
pub fn split_space_raw<'a>(input: &'a str) -> (r: (&'a str, &'a str))
    ensures
        r.0@ == cmd_of(input@),
        r.1@ == raw_rest(input@),
{
    let n = input.unicode_len();
    let mut i: usize = 0;
    while i < n && input.get_char(i) != ' '
        invariant
            n == input@.len(),
            0 <= i <= n,
            forall|j: int| 0 <= j < i ==> #[trigger] input@[j] != ' ',
        decreases n - i,
    {
        i += 1;
    }
    proof {
        lemma_space_idx_at(input@, i as int);
    }
    let cmd = input.substring_char(0, i);
    if i < n {
        let tail = input.substring_char(i + 1, n);
        (cmd, tail)
    } else {
        let tail = input.substring_char(n, n);
        proof {
            assert(tail@ =~= Seq::<char>::empty());
        }
        (cmd, tail)
    }
}

/// An id cut to at most `max` characters, with an ellipsis when cut.
pub fn truncate_id(id: &str, max: usize) -> (r: String)
    ensures
        r@ == trunc_spec(id@, max as nat),
{
    let n = id.unicode_len();
    if n <= max {
        id.to_owned()
    } else {
        let mut s = id.substring_char(0, max).to_owned();
        push_char(&mut s, '…');
        s
    }
}

fn eqi_char_exec(a: char, b: char) -> (r: bool)
    ensures
        r == eqi_char(a, b),
{
    if a == b {
        true
    } else {
        let au = a as u32;
        let bu = b as u32;
        (65 <= au && au <= 90 && bu == au + 32) || (65 <= bu && bu <= 90 && au == bu + 32)
    }
}

/// Case-insensitive string comparison, ASCII letters only.
pub fn eqi_str_exec(a: &str, b: &str) -> (r: bool)
    ensures
        r == eqi_str(a@, b@),
{
    let n = a.unicode_len();
    if n != b.unicode_len() {
        return false;
    }
    let mut i: usize = 0;
    while i < n
        invariant
            n == a@.len(),
            n == b@.len(),
            0 <= i <= n,
            forall|j: int| 0 <= j < i ==> eqi_char(#[trigger] a@[j], b@[j]),
        decreases n - i,
    {
        if !eqi_char_exec(a.get_char(i), b.get_char(i)) {
            return false;
        }
        i += 1;
    }
    true
}

proof fn lemma_dec_val_extend(s: Seq<char>, i: int)
    requires
        0 <= i < s.len(),
    ensures
        dec_val(s.subrange(0, i + 1)) == dec_val(s.subrange(0, i)) * 10 + digit_val(s[i]),
{
    let p = s.subrange(0, i + 1);
    assert(p.drop_last() =~= s.subrange(0, i));
}

fn is_digit_exec(c: char) -> (r: bool)
    ensures
        r == is_digit(c),
{
    '0' <= c && c <= '9'
}

fn digit_val_exec(c: char) -> (v: u32)
    ensures
        v == digit_val(c),
{
    if c == '1' {
        1
    } else if c == '2' {
        2
    } else if c == '3' {
        3
    } else if c == '4' {
        4
    } else if c == '5' {
        5
    } else if c == '6' {
        6
    } else if c == '7' {
        7
    } else if c == '8' {
        8
    } else if c == '9' {
        9
    } else {
        0
    }
}

/// Parses a port argument: all decimal digits, value at most 65535.
pub fn parse_port(s: &str) -> (r: Option<u16>)
    ensures
        r == port_spec(s@),
{
    let n = s.unicode_len();
    if n == 0 {
        return None;
    }
    let mut acc: u32 = 0;
    let mut i: usize = 0;
    while i < n
        invariant
            n == s@.len(),
            0 <= i <= n,
            all_digits(s@.subrange(0, i as int)),
            dec_val(s@.subrange(0, i as int)) <= 65535 ==> acc == dec_val(
                s@.subrange(0, i as int),
            ),
            dec_val(s@.subrange(0, i as int)) > 65535 ==> acc > 65535,
            acc <= 65536,
        decreases n - i,
    {
        let c = s.get_char(i);
        if !is_digit_exec(c) {
            proof {
                assert(!all_digits(s@));
            }
            return None;
        }
        let d = digit_val_exec(c);
        proof {
            lemma_dec_val_extend(s@, i as int);
        }
        if acc > 65535 {
            acc = 65536;
        } else {
            acc = acc * 10 + d;
            if acc > 65535 {
                acc = 65536;
            }
        }
        i += 1;
        proof {
            assert(s@.subrange(0, i as int) =~= s@.subrange(0, i - 1).push(s@[i - 1]));
        }
    }
    proof {
        assert(s@.subrange(0, n as int) =~= s@);
    }
    if acc > 65535 {
        None
    } else {
        Some(acc as u16)
    }
}

} // verus!
