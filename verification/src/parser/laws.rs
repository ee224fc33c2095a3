//! Properties of the AST builder that hold across calls and inputs.
use vstd::prelude::*;

use crate::parser::expr_spec::{call_target, string_spec, unescape};
use crate::parser::item_spec::{function_name, functions_after, item_spec, program_scan, program_spec};
use crate::parser::text::{is_space, replace_pair_spec, trim_end_spec, trim_spec, trim_start_spec};
use crate::parser::tree::{Node, Rule};
use crate::parser::view::{ExprV, ItemV, ProgramV};
use crate::parser::error::ParseErrorV;
use crate::parser::{char_literal_value, ParserStateV};

verus! {

proof fn lemma_trim_start_first(s: Seq<char>)
    ensures
        trim_start_spec(s).len() > 0 ==> !is_space(trim_start_spec(s)[0]),
    decreases s.len(),
{
    if s.len() > 0 && is_space(s[0]) {
        lemma_trim_start_first(s.drop_first());
    }
}

proof fn lemma_trim_end_prefix(s: Seq<char>)
    ensures
        trim_end_spec(s).len() <= s.len(),
        trim_end_spec(s) == s.subrange(0, trim_end_spec(s).len() as int),
        trim_end_spec(s).len() > 0 ==> !is_space(trim_end_spec(s).last()),
    decreases s.len(),
{
    if s.len() > 0 && is_space(s.last()) {
        lemma_trim_end_prefix(s.drop_last());
        assert(s.drop_last().subrange(0, trim_end_spec(s).len() as int) =~= s.subrange(
            0,
            trim_end_spec(s).len() as int,
        ));
    } else {
        assert(s.subrange(0, s.len() as int) =~= s);
    }
}

/// Trimming an identifier twice is trimming it once.
pub proof fn lemma_trim_idempotent(s: Seq<char>)
    ensures
        trim_spec(trim_spec(s)) == trim_spec(s),
{
    let u = trim_start_spec(s);
    let t = trim_end_spec(u);
    lemma_trim_start_first(s);
    lemma_trim_end_prefix(u);
    if t.len() > 0 {
        assert(t[0] == u[0]);
        assert(trim_start_spec(t) == t);
        assert(trim_end_spec(t) == t);
    } else {
        assert(trim_start_spec(t) == t);
        assert(trim_end_spec(t) == t);
    }
}

/// A character between single quotes stands for itself.
pub proof fn lemma_quoted_char(c: char)
    ensures
        char_literal_value(seq!['\'', c, '\'']) == c,
{
    let s = seq!['\'', c, '\''];
    assert(s.subrange(1, 2) =~= seq![c]);
}

proof fn lemma_replace_pair_plain(s: Seq<char>, b: char, r: char)
    requires
        !s.contains('\\'),
    ensures
        replace_pair_spec(s, '\\', b, r) == s,
    decreases s.len(),
{
    if s.len() > 0 {
        assert(s[0] != '\\');
        assert(!s.drop_first().contains('\\')) by {
            if s.drop_first().contains('\\') {
                let k = choose|k: int| 0 <= k < s.drop_first().len() && s.drop_first()[k] == '\\';
                assert(s[k + 1] == '\\');
            }
        }
        lemma_replace_pair_plain(s.drop_first(), b, r);
        assert(seq![s[0]] + s.drop_first() =~= s);
    }
}

/// A string literal without backslashes is taken as it is written.
pub proof fn lemma_unescape_plain(s: Seq<char>)
    requires
        !s.contains('\\'),
    ensures
        unescape(s) == s,
{
    lemma_replace_pair_plain(s, 'n', '\n');
    lemma_replace_pair_plain(s, 't', '\t');
    lemma_replace_pair_plain(s, 'r', '\r');
    lemma_replace_pair_plain(s, '"', '"');
    lemma_replace_pair_plain(s, '\\', '\\');
}

/// `t` as it is written inside a string literal: each double quote
/// preceded by a backslash.
pub open spec fn escape_quotes(t: Seq<char>) -> Seq<char>
    decreases t.len(),
{
    if t.len() == 0 {
        t
    } else if t[0] == '"' {
        seq!['\\', '"'] + escape_quotes(t.drop_first())
    } else {
        seq![t[0]] + escape_quotes(t.drop_first())
    }
}

proof fn lemma_rest_plain(t: Seq<char>)
    requires
        t.len() > 0,
        !t.contains('\\'),
    ensures
        t[0] != '\\',
        !t.drop_first().contains('\\'),
{
    assert(t[0] != '\\');
    if t.drop_first().contains('\\') {
        let k = choose|k: int| 0 <= k < t.drop_first().len() && t.drop_first()[k] == '\\';
        assert(t[k + 1] == '\\');
    }
}

/// Escaped quotes pass unchanged through the replacement of any other
/// escape sequence.
proof fn lemma_pass_escaped(t: Seq<char>, b: char, r: char)
    requires
        !t.contains('\\'),
        b != '"',
    ensures
        replace_pair_spec(escape_quotes(t), '\\', b, r) == escape_quotes(t),
    decreases t.len(),
{
    if t.len() > 0 {
        lemma_rest_plain(t);
        let rest = escape_quotes(t.drop_first());
        lemma_pass_escaped(t.drop_first(), b, r);
        let e = escape_quotes(t);
        if t[0] == '"' {
            assert(e.drop_first().drop_first() =~= rest);
            assert(e.drop_first()[0] == '"');
            assert(replace_pair_spec(e.drop_first(), '\\', b, r) == seq!['"'] + rest);
            assert(seq!['\\'] + (seq!['"'] + rest) =~= e);
        } else {
            assert(e.drop_first() =~= rest);
        }
    }
}

/// Replacing backslash-quote by a quote undoes `escape_quotes`.
proof fn lemma_unquote(t: Seq<char>)
    requires
        !t.contains('\\'),
    ensures
        replace_pair_spec(escape_quotes(t), '\\', '"', '"') == t,
    decreases t.len(),
{
    if t.len() > 0 {
        lemma_rest_plain(t);
        lemma_unquote(t.drop_first());
        let e = escape_quotes(t);
        if t[0] == '"' {
            assert(e.subrange(2, e.len() as int) =~= escape_quotes(t.drop_first()));
        } else {
            assert(e.drop_first() =~= escape_quotes(t.drop_first()));
        }
        assert(seq![t[0]] + t.drop_first() =~= t);
    }
}

/// An escaped double quote inside a string literal stands for a double
/// quote: for every text `t` without backslashes, the literal that writes
/// `t` between double quotes, each double quote of `t` escaped, is the
/// string `t`.
pub proof fn lemma_escaped_quotes_string(n: Node, t: Seq<char>)
    requires
        !t.contains('\\'),
        n.text@ == seq!['"'] + escape_quotes(t) + seq!['"'],
    ensures
        string_spec(n) == Ok::<ExprV, ParseErrorV>(ExprV::String(t, n.span)),
{
    let raw = n.text@;
    let e = escape_quotes(t);
    assert(raw.subrange(1, raw.len() - 1) =~= e);
    lemma_pass_escaped(t, 'n', '\n');
    lemma_pass_escaped(t, 't', '\t');
    lemma_pass_escaped(t, 'r', '\r');
    lemma_unquote(t);
    lemma_replace_pair_plain(t, '\\', '\\');
}

/// A call to a function built earlier targets the name that function was
/// given, for every function but `main`.
pub proof fn lemma_call_targets_function_name(st: ParserStateV, raw: Seq<char>)
    requires
        st.functions.contains(raw),
        raw != seq!['m', 'a', 'i', 'n'],
    ensures
        call_target(st, raw) == function_name(st, raw),
{
}

/// Every function item among `items` has its source name in `fs`.
pub open spec fn functions_recorded(items: Seq<ItemV>, fs: Seq<Seq<char>>) -> bool {
    forall|k: int|
        0 <= k < items.len() && #[trigger] items[k] is Function ==> fs.contains(
            items[k]->Function_0.raw_name,
        )
}

proof fn lemma_program_scan_records(
    st: ParserStateV,
    n: Node,
    i: int,
    funcs: Seq<Seq<char>>,
    items: Seq<ItemV>,
    fs: Seq<Seq<char>>,
    p: ProgramV,
)
    requires
        program_scan(st, n, i, funcs, items) == Some((fs, Ok::<ProgramV, ParseErrorV>(p))),
        functions_recorded(items, funcs),
    ensures
        functions_recorded(p.items, fs),
        forall|x: Seq<char>| funcs.contains(x) ==> #[trigger] fs.contains(x),
        funcs.no_duplicates() ==> fs.no_duplicates(),
    decreases n.children@.len() - i,
{
    if i < 0 || i >= n.children@.len() {
    } else {
        let c = n.children@[i];
        if c.rule == Rule::item {
            let item = item_spec(ParserStateV { functions: funcs, ..st }, c)->0->Ok_0;
            let funcs2 = functions_after(funcs, item);
            let items2 = items.push(item);
            assert forall|x: Seq<char>| funcs.contains(x) implies #[trigger] funcs2.contains(x) by {
                if item is Function && !funcs.contains(item->Function_0.raw_name) {
                    let k = choose|k: int| 0 <= k < funcs.len() && funcs[k] == x;
                    assert(funcs2[k] == x);
                }
            }
            assert(item is Function ==> funcs2.contains(item->Function_0.raw_name)) by {
                if item is Function && !funcs.contains(item->Function_0.raw_name) {
                    assert(funcs2[funcs.len() as int] == item->Function_0.raw_name);
                }
            }
            assert(functions_recorded(items2, funcs2)) by {
                assert forall|k: int|
                    0 <= k < items2.len() && #[trigger] items2[k] is Function implies funcs2.contains(
                    items2[k]->Function_0.raw_name,
                ) by {
                    if k < items.len() {
                        assert(items2[k] == items[k]);
                        assert(funcs.contains(items[k]->Function_0.raw_name));
                    }
                }
            }
            assert(funcs.no_duplicates() ==> funcs2.no_duplicates());
            lemma_program_scan_records(st, n, i + 1, funcs2, items2, fs, p);
        } else if c.rule == Rule::EOI {
            lemma_program_scan_records(st, n, i + 1, funcs, items, fs, p);
        }
    }
}

/// After a program is built, the builder knows the source name of every
/// function the program defines, it still knows every name it knew before,
/// and it knows no name twice where it knew none twice before.
pub proof fn lemma_program_records_functions(st: ParserStateV, n: Node)
    requires
        program_spec(st, n) matches Some((_, Ok(_))),
    ensures
        program_spec(st, n) matches Some((fs, Ok(p))) && {
            &&& functions_recorded(p.items, fs)
            &&& forall|x: Seq<char>| st.functions.contains(x) ==> #[trigger] fs.contains(x)
            &&& st.functions.no_duplicates() ==> fs.no_duplicates()
        },
{
    let (fs, r) = program_spec(st, n)->0;
    let p = r->Ok_0;
    lemma_program_scan_records(st, n, 0, st.functions, Seq::empty(), fs, p);
}

} // verus!
