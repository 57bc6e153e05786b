//! The `revolver` command line: options, the command word and its message.

use vstd::prelude::*;
use vstd::string::*;

use crate::styles::{find_style, is_style_name, spec_style, STYLE_COUNT};
use crate::session::{FAILURE, SUCCESS};
use crate::text::{join_from, join_words, starts_with, str_eq, words};

verus! {

/// The help text: how to call `revolver`, its options and its commands.
pub const USAGE: &'static str = "\x1b[0;33mUsage:\x1b[0;m\n  revolver [options] <command> <message>\n\n\
         \x1b[0;33mOptions:\x1b[0;m\n  -h, --help         Output help text and exit\n  \
         -v, --version      Output version information and exit\n  \
         -s, --style        Set the spinner style\n\n\
         \x1b[0;33mCommands:\x1b[0;m\n  start <message>    Start the spinner\n  \
         update <message>   Update the message\n  stop               Stop the spinner\n  \
         demo               Display an demo of each style\n";

/// The version line.
pub const VERSION_LINE: &'static str = "0.2.0\n";

/// The error line for a style that the table does not hold.
pub fn unknown_style_message(name: &str) -> (m: String)
    ensures
        m@ == "\x1b[0;31mSpinner '"@ + name@ + "' is not recognised\x1b[0;m"@,
{
    let mut m = String::from_str("\x1b[0;31mSpinner '");
    m.append(name);
    m.append("' is not recognised\x1b[0;m");
    m
}

/// The error line for a command word that names no command.
pub fn unknown_command_message(word: &str) -> (m: String)
    ensures
        m@ == "Command "@ + word@ + " is not recognised"@,
{
    let mut m = String::from_str("Command ");
    m.append(word);
    m.append(" is not recognised");
    m
}

/// How an argument scan ends: on a help or version option, or at the end of
/// the arguments with the style option last given and the other arguments.
pub ghost enum ScanView {
    Help,
    Version,
    Done { style: Option<Seq<char>>, positionals: Seq<Seq<char>> },
}

/// Scans `argv` from `i` on, with the style option and the other arguments
/// seen so far. The first help or version option ends the scan; `-s` and
/// `--style` take the next argument (if there is one) as the style,
/// `--style=NAME` and `-sNAME` give it inline; any other argument is kept.
pub open spec fn scan(
    argv: Seq<Seq<char>>,
    i: int,
    style: Option<Seq<char>>,
    positionals: Seq<Seq<char>>,
) -> ScanView
    decreases argv.len() - i,
{
    if i < 0 || i >= argv.len() {
        ScanView::Done { style, positionals }
    } else {
        let a = argv[i];
        if a == "-h"@ || a == "--help"@ {
            ScanView::Help
        } else if a == "-v"@ || a == "--version"@ {
            ScanView::Version
        } else if a == "-s"@ || a == "--style"@ {
            if i + 1 < argv.len() {
                scan(argv, i + 2, Some(argv[i + 1]), positionals)
            } else {
                ScanView::Done { style, positionals }
            }
        } else if "--style="@.is_prefix_of(a) {
            scan(argv, i + 1, Some(a.skip(8)), positionals)
        } else if "-s"@.is_prefix_of(a) && a.len() > 2 {
            scan(argv, i + 1, Some(a.skip(2)), positionals)
        } else {
            scan(argv, i + 1, style, positionals.push(a))
        }
    }
}

/// Whether an argument is a style option, in any of its forms.
pub open spec fn is_style_option(a: Seq<char>) -> bool {
    ||| a == "-s"@
    ||| a == "--style"@
    ||| "--style="@.is_prefix_of(a)
    ||| "-s"@.is_prefix_of(a) && a.len() > 2
}

/// Whether the arguments `unit` set the style to `v` in one of the four
/// forms: `-s v`, `--style v`, `--style=v` or `-sv` (the last only for a
/// non-empty `v`).
pub open spec fn sets_style(unit: Seq<Seq<char>>, v: Seq<char>) -> bool {
    ||| unit == seq!["-s"@, v]
    ||| unit == seq!["--style"@, v]
    ||| unit == seq!["--style="@ + v]
    ||| unit == seq!["-s"@ + v] && v.len() > 0
}

/// Scans arguments of which none is a style option: the first help or
/// version option ends the scan, the others are kept.
pub open spec fn plain_scan(
    w: Seq<Seq<char>>,
    style: Option<Seq<char>>,
    positionals: Seq<Seq<char>>,
) -> ScanView
    decreases w.len(),
{
    if w.len() == 0 {
        ScanView::Done { style, positionals }
    } else if w[0] == "-h"@ || w[0] == "--help"@ {
        ScanView::Help
    } else if w[0] == "-v"@ || w[0] == "--version"@ {
        ScanView::Version
    } else {
        plain_scan(w.drop_first(), style, positionals.push(w[0]))
    }
}

/// The style carried through a plain scan is the one it started with.
proof fn lemma_plain_scan_style(
    w: Seq<Seq<char>>,
    style: Option<Seq<char>>,
    positionals: Seq<Seq<char>>,
)
    ensures
        plain_scan(w, style, positionals) == match plain_scan(w, None, positionals) {
            ScanView::Done { style: _, positionals: p } => ScanView::Done { style, positionals: p },
            other => other,
        },
    decreases w.len(),
{
    if w.len() > 0 {
        lemma_plain_scan_style(w.drop_first(), style, positionals.push(w[0]));
    }
}

/// A plain scan of two stretches of arguments is the scan of the first
/// followed, if it ran to its end, by the scan of the second.
proof fn lemma_plain_scan_concat(
    w1: Seq<Seq<char>>,
    w2: Seq<Seq<char>>,
    style: Option<Seq<char>>,
    positionals: Seq<Seq<char>>,
)
    ensures
        plain_scan(w1 + w2, style, positionals) == match plain_scan(w1, style, positionals) {
            ScanView::Done { style: s, positionals: p } => plain_scan(w2, s, p),
            other => other,
        },
    decreases w1.len(),
{
    if w1.len() == 0 {
        assert(w1 + w2 =~= w2);
    } else {
        assert((w1 + w2).drop_first() =~= w1.drop_first() + w2);
        assert((w1 + w2)[0] == w1[0]);
        lemma_plain_scan_concat(w1.drop_first(), w2, style, positionals.push(w1[0]));
    }
}

/// Over a stretch `[i, k)` of `argv` that holds no style option, `scan` does
/// what a plain scan of the stretch does, and goes on from `k`.
proof fn lemma_scan_stretch(
    argv: Seq<Seq<char>>,
    i: int,
    k: int,
    style: Option<Seq<char>>,
    positionals: Seq<Seq<char>>,
)
    requires
        0 <= i <= k <= argv.len(),
        forall|t: int| i <= t < k ==> !is_style_option(#[trigger] argv[t]),
    ensures
        scan(argv, i, style, positionals) == match plain_scan(
            argv.subrange(i, k),
            style,
            positionals,
        ) {
            ScanView::Done { style: s, positionals: p } => scan(argv, k, s, p),
            other => other,
        },
    decreases k - i,
{
    if i < k {
        let a = argv[i];
        assert(!is_style_option(a));
        assert(argv.subrange(i, k)[0] == a);
        assert(argv.subrange(i, k).drop_first() =~= argv.subrange(i + 1, k));
        lemma_scan_stretch(argv, i + 1, k, style, positionals.push(a));
    }
}

/// The arguments that set a style move the scan past them with that style.
proof fn lemma_scan_style_unit(
    argv: Seq<Seq<char>>,
    i: int,
    unit: Seq<Seq<char>>,
    v: Seq<char>,
    style: Option<Seq<char>>,
    positionals: Seq<Seq<char>>,
)
    requires
        0 <= i,
        i + unit.len() <= argv.len(),
        argv.subrange(i, i + unit.len()) == unit,
        sets_style(unit, v),
    ensures
        scan(argv, i, style, positionals) == scan(argv, i + unit.len(), Some(v), positionals),
{
    reveal_strlit("-h");
    reveal_strlit("--help");
    reveal_strlit("-v");
    reveal_strlit("--version");
    reveal_strlit("-s");
    reveal_strlit("--style");
    reveal_strlit("--style=");
    let a = argv[i];
    assert(a == unit[0]) by {
        assert(argv.subrange(i, i + unit.len())[0] == argv[i]);
    }
    if unit == seq!["-s"@, v] || unit == seq!["--style"@, v] {
        assert(argv[i + 1] == v) by {
            assert(argv.subrange(i, i + unit.len())[1] == argv[i + 1]);
        }
        if a == "-s"@ {
            assert(a[1] == 's');
            assert(a != "-h"@ && a != "-v"@);
            assert(a != "--help"@ && a != "--version"@) by {
                assert(a.len() == 2);
            }
        } else {
            assert(a == "--style"@);
            assert(a[2] == 's' && a.len() == 7);
            assert(a != "-h"@ && a != "-v"@ && a != "--help"@ && a != "--version"@);
        }
    } else if unit == seq!["--style="@ + v] {
        assert(a[2] == 's');
        assert(a != "-h"@ && a != "-v"@ && a != "-s"@) by {
            assert(a.len() >= 8);
        }
        assert(a != "--help"@ && a != "--version"@ && a != "--style"@) by {
            assert(a.len() >= 8);
            assert(a[2] == 's' && a[7] == '=');
        }
        assert("--style="@.is_prefix_of(a)) by {
            assert(a.subrange(0, 8) =~= "--style="@);
        }
        assert(a.skip(8) =~= v);
    } else {
        assert(a[1] == 's');
        assert(a != "-h"@ && a != "-v"@ && a != "--help"@ && a != "--version"@ && a
            != "--style"@);
        assert(a != "-s"@) by {
            assert(a.len() > 2);
        }
        assert(!"--style="@.is_prefix_of(a)) by {
            if "--style="@.is_prefix_of(a) {
                assert(a.subrange(0, 8)[1] == a[1]);
            }
        }
        assert("-s"@.is_prefix_of(a)) by {
            assert(a.subrange(0, 2) =~= "-s"@);
        }
        assert(a.skip(2) =~= v);
    }
}

/// On a command line with one style option, that option decides the style
/// and nothing else: scanning `pre + unit + post`, where `unit` sets the
/// style to `v` and no argument of `pre` or `post` is a style option, comes
/// to the plain scan of `pre + post` with the style `v`.
pub proof fn lemma_single_style_option(
    pre: Seq<Seq<char>>,
    unit: Seq<Seq<char>>,
    post: Seq<Seq<char>>,
    v: Seq<char>,
)
    requires
        sets_style(unit, v),
        forall|t: int| 0 <= t < pre.len() ==> !is_style_option(#[trigger] pre[t]),
        forall|t: int| 0 <= t < post.len() ==> !is_style_option(#[trigger] post[t]),
    ensures
        scan(pre + unit + post, 0, None, seq![]) == plain_scan(pre + post, Some(v), seq![]),
{
    let argv = pre + unit + post;
    let p = pre.len() as int;
    let q = p + unit.len();
    assert forall|t: int| 0 <= t < p implies !is_style_option(#[trigger] argv[t]) by {
        assert(argv[t] == pre[t]);
    }
    assert forall|t: int| q <= t < argv.len() implies !is_style_option(#[trigger] argv[t]) by {
        assert(argv[t] == post[t - q]);
    }
    assert(argv.subrange(0, p) =~= pre);
    assert(argv.subrange(p, q) =~= unit);
    assert(argv.subrange(q, argv.len() as int) =~= post);
    lemma_scan_stretch(argv, 0, p, None, seq![]);
    lemma_plain_scan_concat(pre, post, Some(v), seq![]);
    lemma_plain_scan_style(pre, Some(v), seq![]);
    match plain_scan(pre, None, seq![]) {
        ScanView::Done { style: _, positionals: pp } => {
            lemma_scan_style_unit(argv, p, unit, v, None, pp);
            lemma_scan_stretch(argv, q, argv.len() as int, Some(v), pp);
            lemma_plain_scan_style(pre, None, seq![]);
        },
        _ => {},
    }
}

/// The four forms of the style option mean the same, and where the option
/// stands among the other arguments does not matter: two command lines that
/// each hold one style option, setting the same style `v`, and otherwise the
/// same arguments in the same order, ask for the same thing.
pub proof fn lemma_style_option_forms(
    pre_a: Seq<Seq<char>>,
    unit_a: Seq<Seq<char>>,
    post_a: Seq<Seq<char>>,
    pre_b: Seq<Seq<char>>,
    unit_b: Seq<Seq<char>>,
    post_b: Seq<Seq<char>>,
    v: Seq<char>,
)
    requires
        sets_style(unit_a, v),
        sets_style(unit_b, v),
        pre_a + post_a == pre_b + post_b,
        forall|t: int| 0 <= t < pre_a.len() ==> !is_style_option(#[trigger] pre_a[t]),
        forall|t: int| 0 <= t < post_a.len() ==> !is_style_option(#[trigger] post_a[t]),
        forall|t: int| 0 <= t < pre_b.len() ==> !is_style_option(#[trigger] pre_b[t]),
        forall|t: int| 0 <= t < post_b.len() ==> !is_style_option(#[trigger] post_b[t]),
    ensures
        spec_invocation(pre_a + unit_a + post_a) == spec_invocation(pre_b + unit_b + post_b),
        spec_outcome(spec_invocation(pre_a + unit_a + post_a)) == spec_outcome(
            spec_invocation(pre_b + unit_b + post_b),
        ),
{
    lemma_single_style_option(pre_a, unit_a, post_a, v);
    lemma_single_style_option(pre_b, unit_b, post_b, v);
}

/// Whether the scan of `argv` that starts at `i` steps onto `k`: `-s` and
/// `--style` step over their value, every other argument over itself alone.
/// It does not step onto a place between a style option and its value.
pub open spec fn steps_onto(argv: Seq<Seq<char>>, i: int, k: int) -> bool
    decreases k - i,
{
    if i == k {
        true
    } else if i > k || i < 0 || i >= argv.len() {
        false
    } else {
        let a = argv[i];
        let step = if (a == "-s"@ || a == "--style"@) && i + 1 < argv.len() {
            2int
        } else {
            1int
        };
        i + step <= k && steps_onto(argv, i + step, k)
    }
}

/// Where the scan steps onto `k`, it runs over `argv[..k]` as it would over
/// those arguments alone, then goes on from `k`.
proof fn lemma_scan_cut(
    argv: Seq<Seq<char>>,
    i: int,
    k: int,
    style: Option<Seq<char>>,
    positionals: Seq<Seq<char>>,
)
    requires
        0 <= i <= k <= argv.len(),
        steps_onto(argv, i, k),
    ensures
        scan(argv, i, style, positionals) == match scan(argv.take(k), i, style, positionals) {
            ScanView::Done { style: s, positionals: p } => scan(argv, k, s, p),
            other => other,
        },
    decreases k - i,
{
    if i < k {
        let a = argv[i];
        assert(argv.take(k)[i] == a);
        if a == "-h"@ || a == "--help"@ || a == "-v"@ || a == "--version"@ {
        } else if a == "-s"@ || a == "--style"@ {
            if i + 1 < argv.len() {
                assert(i + 2 <= k) by {
                    if i + 2 > k {
                        assert(!steps_onto(argv, i + 2, k));
                    }
                }
                assert(argv.take(k)[i + 1] == argv[i + 1]);
                lemma_scan_cut(argv, i + 2, k, Some(argv[i + 1]), positionals);
            } else {
                assert(k == i + 1) by {
                    if k > i + 1 {
                        assert(k > argv.len());
                    }
                }
            }
        } else if "--style="@.is_prefix_of(a) {
            lemma_scan_cut(argv, i + 1, k, Some(a.skip(8)), positionals);
        } else if "-s"@.is_prefix_of(a) && a.len() > 2 {
            lemma_scan_cut(argv, i + 1, k, Some(a.skip(2)), positionals);
        } else {
            lemma_scan_cut(argv, i + 1, k, style, positionals.push(a));
        }
    }
}

/// The scan from place `k + j` of `argv` is the scan from `j` of what
/// follows `k`.
proof fn lemma_scan_shift(
    argv: Seq<Seq<char>>,
    k: int,
    j: int,
    style: Option<Seq<char>>,
    positionals: Seq<Seq<char>>,
)
    requires
        0 <= k <= argv.len(),
        0 <= j,
    ensures
        scan(argv, k + j, style, positionals) == scan(argv.skip(k), j, style, positionals),
    decreases argv.len() - k - j,
{
    let rest = argv.skip(k);
    if k + j < argv.len() {
        let a = argv[k + j];
        assert(rest[j] == a);
        if j + 1 < rest.len() {
            assert(rest[j + 1] == argv[k + j + 1]);
        }
        lemma_scan_shift(argv, k, j + 1, Some(a.skip(8)), positionals);
        lemma_scan_shift(argv, k, j + 1, Some(a.skip(2)), positionals);
        lemma_scan_shift(argv, k, j + 1, style, positionals.push(a));
        if k + j + 1 < argv.len() {
            lemma_scan_shift(argv, k, j + 2, Some(argv[k + j + 1]), positionals);
        }
    }
}

/// A stretch of arguments that sets the style to `v` once, and holds no
/// other style option, leaves the scan with the style `v` and with the
/// other arguments of the stretch, whatever follows it.
proof fn lemma_scan_style_stretch(
    x1: Seq<Seq<char>>,
    unit: Seq<Seq<char>>,
    x2: Seq<Seq<char>>,
    post: Seq<Seq<char>>,
    v: Seq<char>,
    style: Option<Seq<char>>,
    positionals: Seq<Seq<char>>,
)
    requires
        sets_style(unit, v),
        forall|t: int| 0 <= t < x1.len() ==> !is_style_option(#[trigger] x1[t]),
        forall|t: int| 0 <= t < x2.len() ==> !is_style_option(#[trigger] x2[t]),
    ensures
        scan(x1 + unit + x2 + post, 0, style, positionals) == match plain_scan(
            x1 + x2,
            Some(v),
            positionals,
        ) {
            ScanView::Done { style: s, positionals: p } => scan(post, 0, s, p),
            other => other,
        },
{
    let argv = x1 + unit + x2 + post;
    let p1 = x1.len() as int;
    let q = p1 + unit.len();
    let e = q + x2.len();
    assert forall|t: int| 0 <= t < p1 implies !is_style_option(#[trigger] argv[t]) by {
        assert(argv[t] == x1[t]);
    }
    assert forall|t: int| q <= t < e implies !is_style_option(#[trigger] argv[t]) by {
        assert(argv[t] == x2[t - q]);
    }
    assert(argv.subrange(0, p1) =~= x1);
    assert(argv.subrange(p1, q) =~= unit);
    assert(argv.subrange(q, e) =~= x2);
    assert(argv.skip(e) =~= post);
    lemma_scan_stretch(argv, 0, p1, style, positionals);
    lemma_plain_scan_concat(x1, x2, Some(v), positionals);
    lemma_plain_scan_style(x1, Some(v), positionals);
    lemma_plain_scan_style(x1, style, positionals);
    match plain_scan(x1, None, positionals) {
        ScanView::Done { style: _, positionals: pp } => {
            lemma_scan_style_unit(argv, p1, unit, v, style, pp);
            lemma_scan_stretch(argv, q, e, Some(v), pp);
            match plain_scan(x2, Some(v), pp) {
                ScanView::Done { style: s2, positionals: p2 } => {
                    lemma_scan_shift(argv, e, 0, s2, p2);
                },
                _ => {},
            }
        },
        _ => {},
    }
}

/// The four forms of the style option mean the same, and the option may
/// move among the other arguments, on any command line: where a stretch
/// that sets the style to `v` once (and holds no other style option) is
/// replaced by another such stretch with the same other arguments in the
/// same order, and the scan steps onto the start of the stretch in both
/// lines (it does not begin between an option and its value), the two
/// command lines ask for the same thing. The other style options of the
/// lines, before or after the stretch, keep their effect.
pub proof fn lemma_style_option_moves(
    pre: Seq<Seq<char>>,
    x1: Seq<Seq<char>>,
    unit_a: Seq<Seq<char>>,
    x2: Seq<Seq<char>>,
    y1: Seq<Seq<char>>,
    unit_b: Seq<Seq<char>>,
    y2: Seq<Seq<char>>,
    post: Seq<Seq<char>>,
    v: Seq<char>,
)
    requires
        sets_style(unit_a, v),
        sets_style(unit_b, v),
        x1 + x2 == y1 + y2,
        forall|t: int| 0 <= t < x1.len() ==> !is_style_option(#[trigger] x1[t]),
        forall|t: int| 0 <= t < x2.len() ==> !is_style_option(#[trigger] x2[t]),
        forall|t: int| 0 <= t < y1.len() ==> !is_style_option(#[trigger] y1[t]),
        forall|t: int| 0 <= t < y2.len() ==> !is_style_option(#[trigger] y2[t]),
        steps_onto(pre + x1 + unit_a + x2 + post, 0, pre.len() as int),
        steps_onto(pre + y1 + unit_b + y2 + post, 0, pre.len() as int),
    ensures
        spec_invocation(pre + x1 + unit_a + x2 + post) == spec_invocation(
            pre + y1 + unit_b + y2 + post,
        ),
        spec_outcome(spec_invocation(pre + x1 + unit_a + x2 + post)) == spec_outcome(
            spec_invocation(pre + y1 + unit_b + y2 + post),
        ),
{
    let a = pre + x1 + unit_a + x2 + post;
    let b = pre + y1 + unit_b + y2 + post;
    let k = pre.len() as int;
    lemma_scan_cut(a, 0, k, None, seq![]);
    lemma_scan_cut(b, 0, k, None, seq![]);
    assert(a.take(k) =~= pre);
    assert(b.take(k) =~= pre);
    assert(a.skip(k) =~= x1 + unit_a + x2 + post);
    assert(b.skip(k) =~= y1 + unit_b + y2 + post);
    match scan(pre, 0, None, seq![]) {
        ScanView::Done { style: s, positionals: p } => {
            lemma_scan_shift(a, k, 0, s, p);
            lemma_scan_shift(b, k, 0, s, p);
            lemma_scan_style_stretch(x1, unit_a, x2, post, v, s, p);
            lemma_scan_style_stretch(y1, unit_b, y2, post, v, s, p);
        },
        _ => {},
    }
}

/// What a command word asks for.
pub ghost enum CommandView {
    Start(Seq<char>),
    Update(Seq<char>),
    Stop,
    Demo,
    Missing,
    Unknown(Seq<char>),
}

/// What a whole command line asks for.
pub ghost enum InvocationView {
    Help,
    Version,
    UnknownStyle(Seq<char>),
    Run { style: Seq<char>, command: CommandView },
}

/// The message of a command line: the arguments after the command word,
/// joined with spaces.
pub open spec fn spec_message(positionals: Seq<Seq<char>>) -> Seq<char> {
    if positionals.len() > 1 {
        join_words(positionals.drop_first())
    } else {
        seq![]
    }
}

/// The command that the arguments other than options name: the first of
/// them is the command word.
pub open spec fn spec_command(positionals: Seq<Seq<char>>) -> CommandView {
    let word = if positionals.len() > 0 { positionals[0] } else { seq![] };
    let msg = spec_message(positionals);
    if word == "start"@ {
        CommandView::Start(msg)
    } else if word == "update"@ {
        CommandView::Update(msg)
    } else if word == "stop"@ {
        CommandView::Stop
    } else if word == "demo"@ {
        CommandView::Demo
    } else if word.len() == 0 {
        CommandView::Missing
    } else {
        CommandView::Unknown(word)
    }
}

/// The style that is used when no style option is given.
pub open spec fn default_style() -> Seq<char> {
    "dots"@
}

/// What the command line `argv` asks for. The style, given or the default,
/// is checked before the command word is looked at.
pub open spec fn spec_invocation(argv: Seq<Seq<char>>) -> InvocationView {
    match scan(argv, 0, None, seq![]) {
        ScanView::Help => InvocationView::Help,
        ScanView::Version => InvocationView::Version,
        ScanView::Done { style, positionals } => {
            let name = match style {
                Some(s) => s,
                None => default_style(),
            };
            if is_style_name(name) {
                InvocationView::Run { style: name, command: spec_command(positionals) }
            } else {
                InvocationView::UnknownStyle(name)
            }
        },
    }
}

/// Joining a single word gives that word; joining one more word appends a
/// space and the word.
pub proof fn lemma_join_words(ws: Seq<Seq<char>>, w: Seq<char>)
    ensures
        join_words(seq![w]) == w,
        join_words(Seq::<Seq<char>>::empty()) == Seq::<char>::empty(),
        ws.len() > 0 ==> join_words(ws.push(w)) == join_words(ws) + " "@ + w,
{
    assert(ws.push(w).drop_last() =~= ws);
}

/// The message of `start` and `update` is every argument after the command
/// word, joined with single spaces, however many there are; in particular
/// a single argument `m` after the word is the whole message.
pub proof fn lemma_command_message(rest: Seq<Seq<char>>, m: Seq<char>)
    ensures
        spec_command(seq!["start"@] + rest) == CommandView::Start(join_words(rest)),
        spec_command(seq!["update"@] + rest) == CommandView::Update(join_words(rest)),
        spec_command(seq!["start"@, m]) == CommandView::Start(m),
        spec_command(seq!["update"@, m]) == CommandView::Update(m),
{
    reveal_strlit("start");
    reveal_strlit("update");
    assert((seq!["start"@] + rest)[0] == "start"@);
    assert((seq!["update"@] + rest)[0] == "update"@);
    assert((seq!["start"@] + rest).drop_first() =~= rest);
    assert((seq!["update"@] + rest).drop_first() =~= rest);
    assert(seq!["start"@, m].drop_first() =~= seq![m]);
    assert(seq!["update"@, m].drop_first() =~= seq![m]);
    assert("start"@ != "update"@) by {
        assert("start"@.len() != "update"@.len());
    }
    lemma_join_words(rest, m);
}

/// Whether an argument is a help or version option.
pub open spec fn is_stop_option(a: Seq<char>) -> bool {
    a == "-h"@ || a == "--help"@ || a == "-v"@ || a == "--version"@
}

/// A command line without options runs its command with the default
/// style, `dots`.
pub proof fn lemma_command_line_without_options(ws: Seq<Seq<char>>)
    requires
        forall|t: int|
            0 <= t < ws.len() ==> !is_style_option(#[trigger] ws[t]) && !is_stop_option(ws[t]),
    ensures
        spec_invocation(ws) == (InvocationView::Run { style: "dots"@, command: spec_command(ws) }),
{
    lemma_scan_stretch(ws, 0, ws.len() as int, None, seq![]);
    assert(ws.subrange(0, ws.len() as int) =~= ws);
    lemma_plain_scan_no_stop(ws, seq![]);
    assert(seq![] + ws =~= ws);
    assert(spec_style(0).name == "dots"@);
    assert(is_style_name("dots"@));
}

proof fn lemma_plain_scan_no_stop(w: Seq<Seq<char>>, positionals: Seq<Seq<char>>)
    requires
        forall|t: int| 0 <= t < w.len() ==> !is_stop_option(#[trigger] w[t]),
    ensures
        plain_scan(w, None, positionals) == (ScanView::Done {
            style: None,
            positionals: positionals + w,
        }),
    decreases w.len(),
{
    if w.len() == 0 {
        assert(positionals + w =~= positionals);
    } else {
        assert(!is_stop_option(w[0]));
        assert forall|t: int| 0 <= t < w.drop_first().len() implies !is_stop_option(
            #[trigger] w.drop_first()[t],
        ) by {
            assert(w.drop_first()[t] == w[t + 1]);
        }
        lemma_plain_scan_no_stop(w.drop_first(), positionals.push(w[0]));
        assert(positionals.push(w[0]) + w.drop_first() =~= positionals + w);
    }
}

/// `revolver update m`, for an argument `m` that is no option, changes the
/// running spinner's message to exactly `m`; `revolver start m` starts the
/// default style with the message `m`.
pub proof fn lemma_one_word_message(m: Seq<char>)
    requires
        !is_style_option(m),
        !is_stop_option(m),
    ensures
        spec_outcome(spec_invocation(seq!["update"@, m])) == (OutcomeView::Update { message: m }),
        spec_outcome(spec_invocation(seq!["start"@, m])) == (OutcomeView::Start {
            style: "dots"@,
            message: m,
        }),
{
    reveal_strlit("start");
    reveal_strlit("update");
    reveal_strlit("-h");
    reveal_strlit("--help");
    reveal_strlit("-v");
    reveal_strlit("--version");
    reveal_strlit("-s");
    reveal_strlit("--style");
    reveal_strlit("--style=");
    lemma_not_option("update"@);
    lemma_not_option("start"@);
    let u = seq!["update"@, m];
    let st = seq!["start"@, m];
    assert forall|t: int| 0 <= t < u.len() implies !is_style_option(#[trigger] u[t])
        && !is_stop_option(u[t]) by {}
    assert forall|t: int| 0 <= t < st.len() implies !is_style_option(#[trigger] st[t])
        && !is_stop_option(st[t]) by {}
    lemma_command_line_without_options(u);
    lemma_command_line_without_options(st);
    lemma_command_message(Seq::empty(), m);
}

/// The command words `start` and `update` are no options.
proof fn lemma_not_option(w: Seq<char>)
    requires
        w == "start"@ || w == "update"@,
    ensures
        !is_style_option(w),
        !is_stop_option(w),
{
    reveal_strlit("start");
    reveal_strlit("update");
    reveal_strlit("-h");
    reveal_strlit("--help");
    reveal_strlit("-v");
    reveal_strlit("--version");
    reveal_strlit("-s");
    reveal_strlit("--style");
    reveal_strlit("--style=");
    assert(w[0] != '-');
    assert(!"--style="@.is_prefix_of(w)) by {
        if "--style="@.is_prefix_of(w) {
            assert(w.subrange(0, 8)[0] == w[0]);
        }
    }
    assert(!"-s"@.is_prefix_of(w)) by {
        if "-s"@.is_prefix_of(w) {
            assert(w.subrange(0, 2)[0] == w[0]);
        }
    }
}

/// What a command word asks for, with the message it carries.
#[derive(Debug, PartialEq, Eq)]
pub enum Command {
    Start(String),
    Update(String),
    Stop,
    Demo,
    Missing,
    Unknown(String),
}

impl View for Command {
    type V = CommandView;

    open spec fn view(&self) -> CommandView {
        match self {
            Command::Start(m) => CommandView::Start(m@),
            Command::Update(m) => CommandView::Update(m@),
            Command::Stop => CommandView::Stop,
            Command::Demo => CommandView::Demo,
            Command::Missing => CommandView::Missing,
            Command::Unknown(w) => CommandView::Unknown(w@),
        }
    }
}

/// What a command line asks for; a style is named by its place in the table.
#[derive(Debug, PartialEq, Eq)]
pub enum Invocation {
    Help,
    Version,
    UnknownStyle(String),
    Run { style: usize, command: Command },
}

impl View for Invocation {
    type V = InvocationView;

    open spec fn view(&self) -> InvocationView {
        match self {
            Invocation::Help => InvocationView::Help,
            Invocation::Version => InvocationView::Version,
            Invocation::UnknownStyle(n) => InvocationView::UnknownStyle(n@),
            Invocation::Run { style, command } => InvocationView::Run {
                style: spec_style(*style as int).name,
                command: command@,
            },
        }
    }
}

/// The command named by `positionals[0]`, with the rest as its message.
pub fn command_of(positionals: &Vec<String>) -> (c: Command)
    ensures
        c@ == spec_command(words(positionals@)),
{
    let ghost ws = words(positionals@);
    let msg = if positionals.len() > 1 {
        let m = join_from(positionals, 1);
        assert(ws.skip(1) =~= ws.drop_first());
        m
    } else {
        String::new()
    };
    if positionals.len() == 0 {
        proof {
            reveal_strlit("start");
            reveal_strlit("update");
            reveal_strlit("stop");
            reveal_strlit("demo");
        }
        return Command::Missing;
    }
    let word = positionals[0].as_str();
    if str_eq(word, "start") {
        Command::Start(msg)
    } else if str_eq(word, "update") {
        Command::Update(msg)
    } else if str_eq(word, "stop") {
        Command::Stop
    } else if str_eq(word, "demo") {
        Command::Demo
    } else if word.unicode_len() == 0 {
        Command::Missing
    } else {
        Command::Unknown(positionals[0].clone())
    }
}

/// Reads the command line `argv` (the builtin's arguments, without its own
/// name).
pub fn parse_invocation(argv: &Vec<String>) -> (r: Invocation)
    ensures
        r@ == spec_invocation(words(argv@)),
        r matches Invocation::Run { style, .. } ==> style < STYLE_COUNT && forall|j: int|
            0 <= j < style ==> #[trigger] spec_style(j).name != spec_style(style as int).name,
{
    let ghost args = words(argv@);
    let mut style: Option<String> = None;
    let mut positionals: Vec<String> = Vec::new();
    let mut i: usize = 0;
    proof {
        reveal_strlit("--style=");
        reveal_strlit("-s");
        assert(words(positionals@) =~= seq![]);
    }
    while i < argv.len()
        invariant
            i <= argv.len(),
            args == words(argv@),
            "--style="@.len() == 8,
            "-s"@.len() == 2,
            scan(args, 0, None, seq![]) == scan(
                args,
                i as int,
                match style {
                    Some(s) => Some(s@),
                    None => None,
                },
                words(positionals@),
            ),
        decreases argv.len() - i,
    {
        let a = argv[i].as_str();
        if str_eq(a, "-h") || str_eq(a, "--help") {
            return Invocation::Help;
        } else if str_eq(a, "-v") || str_eq(a, "--version") {
            return Invocation::Version;
        } else if str_eq(a, "-s") || str_eq(a, "--style") {
            if i + 1 < argv.len() {
                style = Some(argv[i + 1].clone());
                i = i + 2;
            } else {
                i = argv.len();
            }
        } else if starts_with(a, "--style=") {
            let len = a.unicode_len();
            style = Some(String::from_str(a.substring_char(8, len)));
            i = i + 1;
        } else if starts_with(a, "-s") && a.unicode_len() > 2 {
            let len = a.unicode_len();
            style = Some(String::from_str(a.substring_char(2, len)));
            i = i + 1;
        } else {
            let ghost before = positionals@;
            positionals.push(argv[i].clone());
            assert(words(positionals@) =~= words(before).push(args[i as int]));
            i = i + 1;
        }
    }
    let name = match style {
        Some(s) => s,
        None => String::from_str("dots"),
    };
    match find_style(name.as_str()) {
        None => Invocation::UnknownStyle(name),
        Some(idx) => Invocation::Run { style: idx, command: command_of(&positionals) },
    }
}

/// What the builtin does for a command line, as plain values.
pub ghost enum OutcomeView {
    Print { text: Seq<char>, code: int },
    Fail { line: Seq<char> },
    Start { style: Seq<char>, message: Seq<char> },
    Update { message: Seq<char> },
    Stop,
    Demo,
}

/// What the builtin does for what a command line asks: help and version
/// are printed and succeed; a missing command prints the help and fails; an
/// unknown style or command is reported on the error stream and fails; the
/// four commands are carried out.
pub open spec fn spec_outcome(inv: InvocationView) -> OutcomeView {
    match inv {
        InvocationView::Help => OutcomeView::Print { text: USAGE@, code: SUCCESS as int },
        InvocationView::Version => OutcomeView::Print { text: VERSION_LINE@, code: SUCCESS as int },
        InvocationView::UnknownStyle(name) => OutcomeView::Fail {
            line: "\x1b[0;31mSpinner '"@ + name + "' is not recognised\x1b[0;m"@,
        },
        InvocationView::Run { style, command } => match command {
            CommandView::Start(m) => OutcomeView::Start { style, message: m },
            CommandView::Update(m) => OutcomeView::Update { message: m },
            CommandView::Stop => OutcomeView::Stop,
            CommandView::Demo => OutcomeView::Demo,
            CommandView::Missing => OutcomeView::Print { text: USAGE@, code: FAILURE as int },
            CommandView::Unknown(w) => OutcomeView::Fail {
                line: "Command "@ + w + " is not recognised"@,
            },
        },
    }
}

/// What the builtin does: text to print with the exit status, an error line
/// (the builtin then fails), or a command to carry out.
#[derive(Debug, PartialEq, Eq)]
pub enum Outcome {
    Print { text: &'static str, code: i32 },
    Fail { line: String },
    Start { style: usize, message: String },
    Update { message: String },
    Stop,
    Demo,
}

impl View for Outcome {
    type V = OutcomeView;

    open spec fn view(&self) -> OutcomeView {
        match self {
            Outcome::Print { text, code } => OutcomeView::Print { text: text@, code: *code as int },
            Outcome::Fail { line } => OutcomeView::Fail { line: line@ },
            Outcome::Start { style, message } => OutcomeView::Start {
                style: spec_style(*style as int).name,
                message: message@,
            },
            Outcome::Update { message } => OutcomeView::Update { message: message@ },
            Outcome::Stop => OutcomeView::Stop,
            Outcome::Demo => OutcomeView::Demo,
        }
    }
}

/// The `revolver` builtin: what to do for the command line `argv`.
pub fn revolver(argv: &Vec<String>) -> (o: Outcome)
    ensures
        o@ == spec_outcome(spec_invocation(words(argv@))),
        o matches Outcome::Start { style, .. } ==> style < STYLE_COUNT && forall|j: int|
            0 <= j < style ==> #[trigger] spec_style(j).name != spec_style(style as int).name,
{
    match parse_invocation(argv) {
        Invocation::Help => Outcome::Print { text: USAGE, code: SUCCESS },
        Invocation::Version => Outcome::Print { text: VERSION_LINE, code: SUCCESS },
        Invocation::UnknownStyle(name) => Outcome::Fail { line: unknown_style_message(name.as_str()) },
        Invocation::Run { style, command } => match command {
            Command::Start(message) => Outcome::Start { style, message },
            Command::Update(message) => Outcome::Update { message },
            Command::Stop => Outcome::Stop,
            Command::Demo => Outcome::Demo,
            Command::Missing => Outcome::Print { text: USAGE, code: FAILURE },
            Command::Unknown(word) => Outcome::Fail { line: unknown_command_message(word.as_str()) },
        },
    }
}

} // verus!
