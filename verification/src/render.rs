//! The view renderer: a pure function from a snapshot to text, either
//! the bare rows (`Fragment`) or the rows wrapped in static page
//! scaffolding (`FullPage`). Each core renders as one row holding its
//! id and its usage formatted to one decimal place.

use crate::snapshot::{CoreSample, Snapshot};
use vstd::prelude::*;
use vstd::string::*;

verus! {

/// Which representation of a snapshot is wanted: the whole page, or
/// only the rows, suited for repeated delivery over a live channel.
#[derive(Clone, Copy, PartialEq, Eq, Structural, Debug)]
pub enum ViewKind {
    FullPage,
    Fragment,
}

/// The character for one decimal digit value.
pub open spec fn spec_digit(d: int) -> char {
    if d == 0 {
        '0'
    } else if d == 1 {
        '1'
    } else if d == 2 {
        '2'
    } else if d == 3 {
        '3'
    } else if d == 4 {
        '4'
    } else if d == 5 {
        '5'
    } else if d == 6 {
        '6'
    } else if d == 7 {
        '7'
    } else if d == 8 {
        '8'
    } else {
        '9'
    }
}

/// The decimal digits of `n`, most significant first, no leading
/// zeros (except for `n == 0`, which is the single digit `0`).
pub open spec fn spec_dec(n: nat) -> Seq<char>
    decreases n,
{
    if n < 10 {
        seq![spec_digit(n as int)]
    } else {
        spec_dec(n / 10) + seq![spec_digit((n % 10) as int)]
    }
}

/// A usage of `t` tenths of a percent formatted to one decimal place:
/// the whole percents, a dot, and the tenths digit.
pub open spec fn spec_tenths(t: nat) -> Seq<char> {
    spec_dec(t / 10) + seq!['.'] + seq![spec_digit((t % 10) as int)]
}

/// One core's row: its id and its usage to one decimal place, closed
/// by a newline.
pub open spec fn spec_row(c: CoreSample) -> Seq<char> {
    "Core "@ + spec_dec(c.id as nat) + ": "@ + spec_tenths(c.usage_tenths as nat) + "%\n"@
}

/// All rows of a snapshot, in sequence order (ascending core id).
pub open spec fn spec_rows(s: Seq<CoreSample>) -> Seq<char>
    decreases s.len(),
{
    if s.len() == 0 {
        Seq::empty()
    } else {
        spec_rows(s.drop_last()) + spec_row(s.last())
    }
}

/// The static scaffolding that a full page puts before the rows.
pub open spec fn spec_page_header() -> Seq<char> {
    "<!DOCTYPE html>\n<html>\n<head><title>CPU Usage</title></head>\n<body>\n<h1>CPU Usage</h1>\n<pre>\n"@
}

/// The static scaffolding that a full page puts after the rows.
pub open spec fn spec_page_footer() -> Seq<char> {
    "</pre>\n</body>\n</html>\n"@
}

/// What `render` returns: the rows alone for a fragment, or the rows
/// between the static header and footer for a full page.
pub open spec fn spec_render(v: ViewKind, s: Seq<CoreSample>) -> Seq<char> {
    match v {
        ViewKind::Fragment => spec_rows(s),
        ViewKind::FullPage => spec_page_header() + spec_rows(s) + spec_page_footer(),
    }
}

/// The one-character string for a decimal digit value.
fn digit_str(d: u32) -> (s: &'static str)
    requires
        d < 10,
    ensures
        s@ == seq![spec_digit(d as int)],
{
    proof {
        reveal_strlit("0");
        reveal_strlit("1");
        reveal_strlit("2");
        reveal_strlit("3");
        reveal_strlit("4");
        reveal_strlit("5");
        reveal_strlit("6");
        reveal_strlit("7");
        reveal_strlit("8");
        reveal_strlit("9");
    }
    let s: &'static str = if d == 0 {
        "0"
    } else if d == 1 {
        "1"
    } else if d == 2 {
        "2"
    } else if d == 3 {
        "3"
    } else if d == 4 {
        "4"
    } else if d == 5 {
        "5"
    } else if d == 6 {
        "6"
    } else if d == 7 {
        "7"
    } else if d == 8 {
        "8"
    } else {
        "9"
    };
    proof {
        assert(s@ =~= seq![spec_digit(d as int)]);
    }
    s
}

/// Formats `n` in decimal, proved equal to its digit sequence.
pub fn fmt_u64(n: u64) -> (s: String)
    ensures
        s@ == spec_dec(n as nat),
    decreases n,
{
    if n < 10 {
        String::from_str(digit_str(n as u32))
    } else {
        let mut s = fmt_u64(n / 10);
        s.append(digit_str((n % 10) as u32));
        s
    }
}

/// Formats `t` tenths of a percent to one decimal place.
pub fn fmt_tenths(t: u32) -> (s: String)
    ensures
        s@ == spec_tenths(t as nat),
{
    let mut s = fmt_u64((t / 10) as u64);
    proof {
        reveal_strlit(".");
    }
    s.append(".");
    s.append(digit_str(t % 10));
    proof {
        assert("."@ =~= seq!['.']);
        assert(s@ =~= spec_tenths(t as nat));
    }
    s
}

/// Renders one core's row.
pub fn render_row(c: &CoreSample) -> (s: String)
    ensures
        s@ == spec_row(*c),
{
    let mut s = String::from_str("Core ");
    let id_text = fmt_u64(c.id as u64);
    s.append(id_text.as_str());
    s.append(": ");
    let usage_text = fmt_tenths(c.usage_tenths);
    s.append(usage_text.as_str());
    s.append("%\n");
    proof {
        assert(s@ =~= spec_row(*c));
    }
    s
}

/// Renders every row of the snapshot, in ascending core id order.
pub fn render_rows(snap: &Snapshot) -> (s: String)
    ensures
        s@ == spec_rows(snap@),
{
    let mut s = String::new();
    let n = snap.len();
    proof {
        assert(snap@.take(0) =~= Seq::<CoreSample>::empty());
    }
    let mut i: usize = 0;
    while i < n
        invariant
            n == snap@.len(),
            i <= n,
            s@ == spec_rows(snap@.take(i as int)),
        decreases n - i,
    {
        let c = snap.sample(i);
        let row = render_row(&c);
        s.append(row.as_str());
        proof {
            let t = snap@.take(i + 1 as int);
            assert(t.drop_last() =~= snap@.take(i as int));
            assert(t.last() == snap@[i as int]);
        }
        i = i + 1;
    }
    proof {
        assert(snap@.take(n as int) =~= snap@);
    }
    s
}

/// Renders a snapshot: a pure function of the view kind and the
/// snapshot contents. A snapshot with zero cores yields an empty row
/// set (and, for a full page, the bare scaffolding) without error.
pub fn render(view: ViewKind, snap: &Snapshot) -> (s: String)
    ensures
        s@ == spec_render(view, snap@),
{
    match view {
        ViewKind::Fragment => render_rows(snap),
        ViewKind::FullPage => {
            let mut s = String::from_str(
                "<!DOCTYPE html>\n<html>\n<head><title>CPU Usage</title></head>\n<body>\n<h1>CPU Usage</h1>\n<pre>\n",
            );
            let rows = render_rows(snap);
            s.append(rows.as_str());
            s.append("</pre>\n</body>\n</html>\n");
            proof {
                assert(s@ =~= spec_render(ViewKind::FullPage, snap@));
            }
            s
        },
    }
}

/// How many rows a rendered text holds: each row is closed by exactly
/// one newline.
pub open spec fn count_char(s: Seq<char>, c: char) -> nat
    decreases s.len(),
{
    if s.len() == 0 {
        0
    } else {
        count_char(s.drop_last(), c) + (if s.last() == c {
            1nat
        } else {
            0nat
        })
    }
}

proof fn lemma_count_char_concat(a: Seq<char>, b: Seq<char>, c: char)
    ensures
        count_char(a + b, c) == count_char(a, c) + count_char(b, c),
    decreases b.len(),
{
    if b.len() == 0 {
        assert(a + b =~= a);
    } else {
        lemma_count_char_concat(a, b.drop_last(), c);
        assert((a + b).drop_last() =~= a + b.drop_last());
    }
}

proof fn lemma_count_char_single(x: char, c: char)
    ensures
        count_char(seq![x], c) == (if x == c {
            1nat
        } else {
            0nat
        }),
{
    assert(count_char(Seq::<char>::empty(), c) == 0);
    assert(seq![x].drop_last() =~= Seq::<char>::empty());
    assert(seq![x].last() == x);
}

proof fn lemma_count_char_absent(s: Seq<char>, c: char)
    requires
        forall|i: int| 0 <= i < s.len() ==> s[i] != c,
    ensures
        count_char(s, c) == 0,
    decreases s.len(),
{
    if s.len() > 0 {
        lemma_count_char_absent(s.drop_last(), c);
    }
}

proof fn lemma_dec_no_newline(n: nat)
    ensures
        count_char(spec_dec(n), '\n') == 0,
    decreases n,
{
    if n < 10 {
        lemma_count_char_single(spec_digit(n as int), '\n');
    } else {
        lemma_dec_no_newline(n / 10);
        lemma_count_char_single(spec_digit((n % 10) as int), '\n');
        lemma_count_char_concat(spec_dec(n / 10), seq![spec_digit((n % 10) as int)], '\n');
    }
}

proof fn lemma_row_one_newline(c: CoreSample)
    ensures
        count_char(spec_row(c), '\n') == 1,
{
    reveal_strlit("Core ");
    reveal_strlit(": ");
    reveal_strlit("%\n");
    let t = c.usage_tenths as nat;
    lemma_dec_no_newline(c.id as nat);
    lemma_dec_no_newline(t / 10);
    lemma_count_char_single('.', '\n');
    lemma_count_char_single(spec_digit((t % 10) as int), '\n');
    lemma_count_char_absent("Core "@, '\n');
    lemma_count_char_absent(": "@, '\n');
    assert("%\n"@ =~= seq!['%'] + seq!['\n']);
    lemma_count_char_single('%', '\n');
    lemma_count_char_single('\n', '\n');
    lemma_count_char_concat(seq!['%'], seq!['\n'], '\n');
    lemma_count_char_concat(spec_dec(t / 10), seq!['.'], '\n');
    lemma_count_char_concat(spec_dec(t / 10) + seq!['.'], seq![spec_digit((t % 10) as int)], '\n');
    lemma_count_char_concat("Core "@, spec_dec(c.id as nat), '\n');
    lemma_count_char_concat("Core "@ + spec_dec(c.id as nat), ": "@, '\n');
    lemma_count_char_concat("Core "@ + spec_dec(c.id as nat) + ": "@, spec_tenths(t), '\n');
    lemma_count_char_concat(
        "Core "@ + spec_dec(c.id as nat) + ": "@ + spec_tenths(t),
        "%\n"@,
        '\n',
    );
}

/// Law: the fragment view of a snapshot has exactly one row per core —
/// its newline count equals the number of samples, and (by the open
/// definitions above) row i is the rendering of sample i's id and
/// usage to one decimal place.
pub proof fn lemma_fragment_row_count(s: Seq<CoreSample>)
    ensures
        count_char(spec_render(ViewKind::Fragment, s), '\n') == s.len(),
    decreases s.len(),
{
    if s.len() > 0 {
        lemma_fragment_row_count(s.drop_last());
        lemma_row_one_newline(s.last());
        lemma_count_char_concat(spec_rows(s.drop_last()), spec_row(s.last()), '\n');
    }
}

/// Law: rendering is deterministic — equal view kind and equal
/// snapshot contents yield character-identical output.
pub proof fn lemma_render_deterministic(
    v1: ViewKind,
    s1: Seq<CoreSample>,
    v2: ViewKind,
    s2: Seq<CoreSample>,
)
    requires
        v1 == v2,
        s1 == s2,
    ensures
        spec_render(v1, s1) == spec_render(v2, s2),
{
}

/// Law: a snapshot with zero cores renders as the empty fragment.
pub proof fn lemma_fragment_empty()
    ensures
        spec_render(ViewKind::Fragment, Seq::<CoreSample>::empty()) == Seq::<char>::empty(),
{
}

} // verus!
