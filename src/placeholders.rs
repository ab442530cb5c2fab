//! Placeholder expansion in command fields.
//!
//! A positional token is `~~$` followed by its whole run of decimal digits,
//! which give an index: the token stands for the invocation argument at that
//! index (0 is the invoking program, 1 the target file, and so on). A token
//! whose index has no argument stays as it is. Positional tokens are
//! replaced in one left-to-right pass, so an argument's text is not scanned
//! again. Named tokens with their values may be given too; they are applied
//! afterwards, one after another, each replacing every occurrence of its
//! token.

use vstd::prelude::*;
use vstd::string::*;
use crate::rules::{Command, Extras, clone_flags, same_command_settings, same_extras_but_text};
use crate::text::{chars_of, lemma_replace_absent, occurs_at, replace_all, replace_text};

verus! {

pub open spec fn is_digit(c: char) -> bool {
    48 <= (c as u32) <= 57
}

/// The number of decimal digits at the start of `s`.
pub open spec fn digit_run(s: Seq<char>) -> nat
    decreases s.len(),
{
    if s.len() > 0 && is_digit(s[0]) {
        1 + digit_run(s.drop_first())
    } else {
        0
    }
}

/// The value of a sequence of decimal digits.
pub open spec fn digits_value(ds: Seq<char>) -> nat
    decreases ds.len(),
{
    if ds.len() == 0 {
        0
    } else {
        digits_value(ds.drop_last()) * 10 + ((ds.last() as u32) - 48) as nat
    }
}

/// Whether `s` starts with a positional token: `~~$` and at least one digit.
pub open spec fn starts_token(s: Seq<char>) -> bool {
    &&& s.len() >= 3
    &&& s[0] == '~'
    &&& s[1] == '~'
    &&& s[2] == '$'
    &&& digit_run(s.subrange(3, s.len() as int)) > 0
}

/// The length of the positional token at the start of `s`.
pub open spec fn token_len(s: Seq<char>) -> int {
    3 + digit_run(s.subrange(3, s.len() as int)) as int
}

/// The index that the positional token at the start of `s` names.
pub open spec fn token_index(s: Seq<char>) -> nat {
    digits_value(s.subrange(3, token_len(s)))
}

/// `s` with each positional token whose index has an argument replaced by
/// that argument, scanning from the left.
pub open spec fn expand_positional(s: Seq<char>, args: Seq<String>) -> Seq<char>
    decreases s.len(),
{
    if s.len() == 0 {
        s
    } else if starts_token(s) && token_len(s) <= s.len() {
        let rest = expand_positional(s.subrange(token_len(s), s.len() as int), args);
        if token_index(s) < args.len() {
            args[token_index(s) as int]@ + rest
        } else {
            s.subrange(0, token_len(s)) + rest
        }
    } else {
        seq![s[0]] + expand_positional(s.drop_first(), args)
    }
}

/// `s` after applying each binding (token, value) in turn.
pub open spec fn expand_all(s: Seq<char>, bindings: Seq<(Seq<char>, Seq<char>)>) -> Seq<char>
    decreases bindings.len(),
{
    if bindings.len() == 0 {
        s
    } else {
        replace_all(expand_all(s, bindings.drop_last()), bindings.last().0, bindings.last().1)
    }
}

/// The named bindings as (token, value) pairs.
pub open spec fn named_bindings(named: Seq<(String, String)>) -> Seq<(Seq<char>, Seq<char>)> {
    named.map_values(|p: (String, String)| (p.0@, p.1@))
}

/// The expansion of `template`: positional tokens first, then the named
/// bindings in order.
pub open spec fn expanded(template: Seq<char>, args: Seq<String>, named: Seq<(String, String)>) -> Seq<char> {
    expand_all(expand_positional(template, args), named_bindings(named))
}

proof fn lemma_digit_run_bound(s: Seq<char>)
    ensures
        digit_run(s) <= s.len(),
    decreases s.len(),
{
    if s.len() > 0 && is_digit(s[0]) {
        lemma_digit_run_bound(s.drop_first());
    }
}

proof fn lemma_token_fits(s: Seq<char>)
    ensures
        token_len(s) <= s.len() || s.len() < 3,
{
    lemma_digit_run_bound(s.subrange(3, s.len() as int));
}

/// A run of `m` digits ended by the end of `s` or by a non-digit.
proof fn lemma_digit_run_exact(s: Seq<char>, m: int)
    requires
        0 <= m <= s.len(),
        forall|k: int| 0 <= k < m ==> is_digit(#[trigger] s[k]),
        m == s.len() || !is_digit(s[m]),
    ensures
        digit_run(s) == m,
    decreases m,
{
    if m > 0 {
        let t = s.drop_first();
        assert forall|k: int| 0 <= k < m - 1 implies is_digit(#[trigger] t[k]) by {
            assert(t[k] == s[k + 1]);
        }
        lemma_digit_run_exact(t, m - 1);
    }
}

fn is_digit_char(c: char) -> (r: bool)
    ensures
        r == is_digit(c),
{
    let v = c as u32;
    48 <= v && v <= 57
}

/// Replaces each positional token whose index has an argument; see
/// [`expand_positional`].
pub fn expand_positional_text(template: &str, args: &Vec<String>) -> (r: String)
    ensures
        r@ == expand_positional(template@, args@),
{
    let sc = chars_of(template);
    let n = sc.len();
    let na = args.len();
    let ghost s = template@;
    let mut out = String::new();
    let mut start: usize = 0;
    let mut i: usize = 0;
    assert(s.subrange(0, n as int) =~= s);
    assert(out@ + s.subrange(0, 0) =~= Seq::<char>::empty());
    while i < n
        invariant
            sc@ == s,
            s == template@,
            n == s.len(),
            na == args@.len(),
            start <= i <= n,
            expand_positional(s, args@) == out@ + s.subrange(start as int, i as int)
                + expand_positional(s.subrange(i as int, n as int), args@),
        decreases n - i,
    {
        let ghost rest = s.subrange(i as int, n as int);
        proof {
            lemma_token_fits(rest);
        }
        if n > 3 && i < n - 3 && sc[i] == '~' && sc[i + 1] == '~' && sc[i + 2] == '$' && is_digit_char(
            sc[i + 3],
        ) {
            let mut j: usize = i + 3;
            let mut val: usize = 0;
            let mut big: bool = na == 0;
            assert(s.subrange(i + 3, i + 3) =~= Seq::<char>::empty());
            while j < n && is_digit_char(sc[j])
                invariant
                    sc@ == s,
                    n == s.len(),
                    na == args@.len(),
                    i + 3 <= j <= n,
                    forall|k: int| i + 3 <= k < j ==> is_digit(#[trigger] s[k]),
                    big ==> digits_value(s.subrange(i + 3, j as int)) >= na,
                    !big ==> val == digits_value(s.subrange(i + 3, j as int)) && val < na,
                decreases n - j,
            {
                let ghost ds = s.subrange(i + 3, j + 1);
                assert(ds.drop_last() =~= s.subrange(i + 3, j as int));
                assert(ds.last() == s[j as int]);
                let d = (sc[j] as u32) - 48;
                if !big {
                    let nv: u128 = val as u128 * 10 + d as u128;
                    if nv >= na as u128 {
                        big = true;
                    } else {
                        val = nv as usize;
                    }
                }
                j += 1;
            }
            let ghost digits = rest.subrange(3, rest.len() as int);
            proof {
                assert forall|k: int| 0 <= k < j - i - 3 implies is_digit(#[trigger] digits[k]) by {
                    assert(digits[k] == s[i + 3 + k]);
                }
                if j < n {
                    assert(digits[j - i - 3] == s[j as int]);
                }
                lemma_digit_run_exact(digits, j - i - 3);
                assert(rest.subrange(3, token_len(rest)) =~= s.subrange(i + 3, j as int));
                assert(rest.subrange(token_len(rest), rest.len() as int) =~= s.subrange(
                    j as int,
                    n as int,
                ));
                assert(rest.subrange(0, token_len(rest)) =~= s.subrange(i as int, j as int));
                assert(s.subrange(start as int, i as int) + s.subrange(i as int, j as int)
                    =~= s.subrange(start as int, j as int));
            }
            if !big {
                let piece = template.substring_char(start, i);
                out.append(piece);
                out.append(args[val].as_str());
                assert(out@ + s.subrange(j as int, j as int) =~= out@);
                start = j;
            }
            i = j;
        } else {
            proof {
                if rest.len() >= 4 && rest[0] == '~' && rest[1] == '~' && rest[2] == '$' {
                    assert(rest.subrange(3, rest.len() as int)[0] == s[i + 3]);
                }
                if rest.len() == 3 {
                    assert(rest.subrange(3, 3).len() == 0);
                }
            }
            assert(rest.drop_first() =~= s.subrange(i + 1, n as int));
            assert(s.subrange(start as int, i + 1) =~= s.subrange(start as int, i as int) + seq![
                s[i as int],
            ]);
            i = i + 1;
        }
    }
    assert(s.subrange(n as int, n as int).len() == 0);
    let piece = template.substring_char(start, n);
    out.append(piece);
    assert(out@ =~= out@ + Seq::<char>::empty());
    out
}

/// Expands every placeholder of `template`: each positional token whose
/// index has an argument, then each named token with its value.
pub fn expand_placeholders(template: &str, args: &Vec<String>, named: &Vec<(String, String)>) -> (r: String)
    ensures
        r@ == expanded(template@, args@, named@),
{
    let ghost all = named_bindings(named@);
    let mut out = expand_positional_text(template, args);
    let ghost first = out@;
    let mut j: usize = 0;
    assert(all.subrange(0, 0).len() == 0);
    while j < named.len()
        invariant
            all == named_bindings(named@),
            j <= named@.len(),
            all.len() == named@.len(),
            out@ == expand_all(first, all.subrange(0, j as int)),
        decreases named@.len() - j,
    {
        let pair = &named[j];
        out = replace_text(out.as_str(), pair.0.as_str(), pair.1.as_str());
        assert(all.subrange(0, j + 1).drop_last() =~= all.subrange(0, j as int));
        assert(all[j as int] == (named@[j as int].0@, named@[j as int].1@));
        j += 1;
    }
    assert(all.subrange(0, all.len() as int) =~= all);
    out
}

/// Whether `s` holds no positional token whose index is below `n`.
pub open spec fn no_live_token(s: Seq<char>, n: nat) -> bool {
    forall|i: int|
        0 <= i < s.len() ==> !(starts_token(#[trigger] s.subrange(i, s.len() as int))
            && token_index(s.subrange(i, s.len() as int)) < n)
}

proof fn lemma_positional_fixed(s: Seq<char>, args: Seq<String>)
    requires
        no_live_token(s, args.len()),
    ensures
        expand_positional(s, args) == s,
    decreases s.len(),
{
    if s.len() > 0 {
        lemma_token_fits(s);
        let m = if starts_token(s) && token_len(s) <= s.len() { token_len(s) } else { 1 };
        let t = s.subrange(m, s.len() as int);
        assert forall|k: int| 0 <= k < t.len() implies !(starts_token(
            #[trigger] t.subrange(k, t.len() as int),
        ) && token_index(t.subrange(k, t.len() as int)) < args.len()) by {
            assert(t.subrange(k, t.len() as int) =~= s.subrange(m + k, s.len() as int));
        }
        lemma_positional_fixed(t, args);
        assert(s.subrange(0, s.len() as int) =~= s);
        if m == 1 {
            assert(s.drop_first() =~= t);
            assert(seq![s[0]] + t =~= s);
        } else {
            assert(s.subrange(0, m) + t =~= s);
        }
    }
}

proof fn lemma_expand_absent(t: Seq<char>, bindings: Seq<(Seq<char>, Seq<char>)>)
    requires
        forall|k: int, i: int| 0 <= k < bindings.len() ==> !(#[trigger] occurs_at(t, bindings[k].0, i)),
    ensures
        expand_all(t, bindings) == t,
    decreases bindings.len(),
{
    if bindings.len() > 0 {
        let init = bindings.drop_last();
        assert forall|k: int, i: int| 0 <= k < init.len() implies !(#[trigger] occurs_at(t, init[k].0, i)) by {
            assert(init[k] == bindings[k]);
        }
        lemma_expand_absent(t, init);
        let last = bindings.last();
        assert forall|i: int| !occurs_at(t, last.0, i) by {
            assert(bindings[bindings.len() - 1] == last);
        }
        lemma_replace_absent(t, last.0, last.1);
    }
}

/// Expansion is idempotent once no token remains unresolved: when the
/// result holds no positional token whose index has an argument and no
/// named token, expanding it again with the same bindings leaves it
/// unchanged.
pub proof fn lemma_expansion_idempotent(
    template: Seq<char>,
    args: Seq<String>,
    named: Seq<(String, String)>,
)
    requires
        no_live_token(expanded(template, args, named), args.len()),
        forall|k: int, i: int|
            0 <= k < named.len() ==> !(#[trigger] occurs_at(
                expanded(template, args, named),
                named_bindings(named)[k].0,
                i,
            )),
    ensures
        expanded(expanded(template, args, named), args, named) == expanded(template, args, named),
{
    let e = expanded(template, args, named);
    lemma_positional_fixed(e, args);
    lemma_expand_absent(e, named_bindings(named));
}

pub open spec fn string_opt(o: Option<String>) -> Option<Seq<char>> {
    match o {
        Some(s) => Some(s@),
        None => None,
    }
}

pub open spec fn expanded_opt(
    o: Option<String>,
    args: Seq<String>,
    named: Seq<(String, String)>,
) -> Option<Seq<char>> {
    match o {
        Some(s) => Some(expanded(s@, args, named)),
        None => None,
    }
}

/// Whether `r` is `c` with the placeholders of its executable path,
/// arguments, working directory, window title and desktop name expanded,
/// and every other setting kept.
pub open spec fn substituted(
    c: Command,
    r: Command,
    args: Seq<String>,
    named: Seq<(String, String)>,
) -> bool {
    &&& r.path@ == expanded(c.path@, args, named)
    &&& string_opt(r.arguments) == expanded_opt(c.arguments, args, named)
    &&& string_opt(r.cwd) == expanded_opt(c.cwd, args, named)
    &&& same_command_settings(r, c)
    &&& r.extras is Some == c.extras is Some
    &&& c.extras is Some ==> {
        let e = c.extras->Some_0;
        let f = r.extras->Some_0;
        &&& string_opt(f.title) == expanded_opt(e.title, args, named)
        &&& string_opt(f.desktop) == expanded_opt(e.desktop, args, named)
        &&& same_extras_but_text(f, e)
    }
}

fn expand_opt(o: &Option<String>, args: &Vec<String>, named: &Vec<(String, String)>) -> (r:
    Option<String>)
    ensures
        string_opt(r) == expanded_opt(*o, args@, named@),
{
    match o {
        Some(s) => Some(expand_placeholders(s.as_str(), args, named)),
        None => None,
    }
}

/// The command with the placeholders of its executable path, arguments,
/// working directory, window title and desktop name expanded.
pub fn subst_arg_placeholders(
    command: &Command,
    args: &Vec<String>,
    named: &Vec<(String, String)>,
) -> (r: Command)
    ensures
        substituted(*command, r, args@, named@),
{
    let extras = match &command.extras {
        Some(e) => Some(
            Extras {
                desktop: expand_opt(&e.desktop, args, named),
                title: expand_opt(&e.title, args, named),
                x: e.x,
                y: e.y,
                x_size: e.x_size,
                y_size: e.y_size,
                x_count_chars: e.x_count_chars,
                y_count_chars: e.y_count_chars,
                fill_attribute: clone_flags(&e.fill_attribute),
                fill_attribute_append: e.fill_attribute_append,
                flags: clone_flags(&e.flags),
                flags_append: e.flags_append,
                show_window: clone_flags(&e.show_window),
            },
        ),
        None => None,
    };
    Command {
        path: expand_placeholders(command.path.as_str(), args, named),
        arguments: expand_opt(&command.arguments, args, named),
        cwd: expand_opt(&command.cwd, args, named),
        process_attributes: command.process_attributes,
        thread_attributes: command.thread_attributes,
        inherit_handles: command.inherit_handles,
        creation_flags: clone_flags(&command.creation_flags),
        creation_flags_append: command.creation_flags_append,
        extras,
    }
}

} // verus!
