//! The command line's own logic around the domains: handing completion
//! requests to them, the checks and the arguments of the interactive mode,
//! and the printed command tree.
use vstd::prelude::*;

use crate::text::{
    chars_of, join, join_strings, owned, split_char, split_on, str_eq, string_of, string_views, trim, trim_ws,
    views,
};

verus! {

/// The words that a completion request carries: those after `--`, the
/// first one named `ao` whatever the program was called; none without `--`.
pub open spec fn request_words(args: Seq<Seq<char>>) -> Option<Seq<Seq<char>>> {
    if exists|i: int| 0 <= i < args.len() && args[i] == "--"@ {
        let i = choose|i: int|
            0 <= i < args.len() && args[i] == "--"@ && forall|j: int| 0 <= j < i ==> args[j] != "--"@;
        let w = args.skip(i + 1);
        Some(if w.len() > 0 { w.update(0, "ao"@) } else { w })
    } else {
        None
    }
}

/// The words of a completion request, from the program's arguments.
pub fn completion_words(args: &Vec<String>) -> (r: Option<Vec<String>>)
    ensures
        match r {
            Some(w) => request_words(string_views(args@)) == Some(string_views(w@)),
            None => request_words(string_views(args@)) is None,
        },
{
    let ghost a = string_views(args@);
    let mut i: usize = 0;
    while i < args.len()
        invariant
            0 <= i <= args.len(),
            a == string_views(args@),
            forall|j: int| 0 <= j < i ==> a[j] != "--"@,
        decreases args.len() - i,
    {
        if str_eq(args[i].as_str(), "--") {
            let mut w: Vec<String> = Vec::new();
            let mut k: usize = i + 1;
            while k < args.len()
                invariant
                    i < k <= args.len(),
                    w@.len() == k - i - 1,
                    forall|j: int| 0 <= j < w@.len() ==> w@[j]@ == args@[i + 1 + j]@,
                decreases args.len() - k,
            {
                w.push(args[k].clone());
                k += 1;
            }
            proof {
                assert(a[i as int] == "--"@);
                let c = choose|c: int|
                    0 <= c < a.len() && a[c] == "--"@ && forall|j: int| 0 <= j < c ==> a[j] != "--"@;
                assert(c == i) by {
                    if c < i {
                    } else if c > i {
                        assert(a[i as int] != "--"@);
                    }
                }
                assert(string_views(w@) =~= a.skip(i + 1));
            }
            if w.len() > 0 {
                w.set(0, owned("ao"));
                assert(string_views(w@) =~= a.skip(i + 1).update(0, "ao"@));
            }
            return Some(w);
        }
        i += 1;
    }
    None
}

/// Whether a suggestion is kept: help is not offered.
pub open spec fn offered(s: Seq<char>) -> bool {
    s != "help"@ && s != "--help"@ && s != "-h"@
}

/// The suggestions of the first domain that has any, without help; none
/// when no domain has any.
pub open spec fn first_suggestions(per_domain: Seq<Seq<Seq<char>>>) -> Option<Seq<Seq<char>>>
    decreases per_domain.len(),
{
    if per_domain.len() == 0 {
        None
    } else if per_domain[0].len() > 0 {
        Some(per_domain[0].filter(|s: Seq<char>| offered(s)))
    } else {
        first_suggestions(per_domain.skip(1))
    }
}

/// Help is never offered as a suggestion.
pub proof fn lemma_help_never_offered(per_domain: Seq<Seq<Seq<char>>>)
    ensures
        first_suggestions(per_domain) matches Some(s) ==> forall|i: int| 0 <= i < s.len() ==> offered(#[trigger] s[i]),
    decreases per_domain.len(),
{
    if per_domain.len() > 0 {
        if per_domain[0].len() > 0 {
            let f = |s: Seq<char>| offered(s);
            let s = per_domain[0].filter(f);
            assert forall|i: int| 0 <= i < s.len() implies offered(#[trigger] s[i]) by {
                per_domain[0].lemma_filter_pred(f, i);
            }
        } else {
            lemma_help_never_offered(per_domain.skip(1));
        }
    }
}

/// The suggestions to print, given those of each domain in turn.
pub fn pick_suggestions(per_domain: &Vec<Vec<String>>) -> (r: Option<Vec<String>>)
    ensures
        match r {
            Some(s) => first_suggestions(per_domain@.map_values(|v: Vec<String>| string_views(v@))) == Some(
                string_views(s@),
            ),
            None => first_suggestions(per_domain@.map_values(|v: Vec<String>| string_views(v@))) is None,
        },
{
    let ghost all = per_domain@.map_values(|v: Vec<String>| string_views(v@));
    let mut i: usize = 0;
    assert(all.skip(0) =~= all);
    while i < per_domain.len()
        invariant
            0 <= i <= per_domain.len(),
            all == per_domain@.map_values(|v: Vec<String>| string_views(v@)),
            first_suggestions(all) == first_suggestions(all.skip(i as int)),
        decreases per_domain.len() - i,
    {
        let ghost rest = all.skip(i as int);
        assert(rest[0] == string_views(per_domain@[i as int]@));
        assert(rest.skip(1) =~= all.skip(i + 1));
        let v = &per_domain[i];
        if v.len() > 0 {
            let ghost f = |s: Seq<char>| offered(s);
            let mut out: Vec<String> = Vec::new();
            let mut k: usize = 0;
            while k < v.len()
                invariant
                    0 <= k <= v.len(),
                    f == (|s: Seq<char>| offered(s)),
                    string_views(out@) == string_views(v@).take(k as int).filter(f),
                decreases v.len() - k,
            {
                let s = v[k].as_str();
                let ghost before = string_views(out@);
                proof {
                    string_views(v@).take(k as int).lemma_filter_push(s@, f);
                    assert(string_views(v@).take(k + 1 as int) =~= string_views(v@).take(k as int).push(s@));
                }
                if !str_eq(s, "help") && !str_eq(s, "--help") && !str_eq(s, "-h") {
                    out.push(v[k].clone());
                    assert(string_views(out@) =~= before.push(s@));
                } else {
                    assert(string_views(out@) =~= before);
                }
                k += 1;
            }
            assert(string_views(v@).take(v@.len() as int) =~= string_views(v@));
            return Some(out);
        }
        i += 1;
    }
    assert(all.skip(i as int) =~= seq![]);
    None
}

/// `char::is_alphanumeric`: whether a character is a letter or a digit in
/// Unicode.
pub uninterp spec fn alphanumeric(c: char) -> bool;

/// Whether a character is a Unicode letter or digit (`char::is_alphanumeric`);
/// the result is `alphanumeric` of the character.
#[verifier::external_body]
fn is_alphanumeric(c: char) -> (r: bool)
    ensures
        r == alphanumeric(c),
{
    c.is_alphanumeric()
}

/// The verdict on a user name typed in the interactive mode: it may not be
/// empty, and holds letters, digits, `_` and `-` only.
pub open spec fn username_verdict(s: Seq<char>) -> Result<(), Seq<char>> {
    if s.len() == 0 {
        Err("Username cannot be empty"@)
    } else if exists|i: int| 0 <= i < s.len() && !alphanumeric(s[i]) && s[i] != '_' && s[i] != '-' {
        Err("Username contains invalid characters"@)
    } else {
        Ok(())
    }
}

/// Checks a user name typed in the interactive mode.
pub fn validate_username(s: &str) -> (r: Result<(), &'static str>)
    ensures
        match username_verdict(s@) {
            Ok(()) => r is Ok,
            Err(m) => r matches Err(e) && e@ == m,
        },
{
    let c = chars_of(s);
    if c.len() == 0 {
        return Err("Username cannot be empty");
    }
    let mut i: usize = 0;
    while i < c.len()
        invariant
            0 <= i <= c.len(),
            c@ == s@,
            forall|j: int| 0 <= j < i ==> alphanumeric(c@[j]) || c@[j] == '_' || c@[j] == '-',
        decreases c.len() - i,
    {
        let ch = c[i];
        if !is_alphanumeric(ch) && ch != '_' && ch != '-' {
            return Err("Username contains invalid characters");
        }
        i += 1;
    }
    Ok(())
}

/// The verdict on an e-mail address: empty, or with an `@`.
pub open spec fn email_verdict(s: Seq<char>) -> Result<(), Seq<char>> {
    if s.len() > 0 && !s.contains('@') {
        Err("Invalid email format"@)
    } else {
        Ok(())
    }
}

/// Checks an e-mail address typed in the interactive mode.
pub fn validate_email(s: &str) -> (r: Result<(), &'static str>)
    ensures
        match email_verdict(s@) {
            Ok(()) => r is Ok,
            Err(m) => r matches Err(e) && e@ == m,
        },
{
    let c = chars_of(s);
    if c.len() > 0 && !crate::text::contains_char(&c, '@') {
        Err("Invalid email format")
    } else {
        Ok(())
    }
}

/// The option as it is typed: `--long`, else `-s`, else nothing.
pub open spec fn flag_text(long: Option<Seq<char>>, short: Option<char>) -> Option<Seq<char>> {
    match long {
        Some(l) => Some("--"@ + l),
        None => match short {
            Some(c) => Some(seq!['-', c]),
            None => None,
        },
    }
}

/// The option as it is typed.
pub fn option_flag(long: Option<&str>, short: Option<char>) -> (r: Option<String>)
    ensures
        match r {
            Some(f) => flag_text(
                match long {
                    Some(l) => Some(l@),
                    None => None,
                },
                short,
            ) == Some(f@),
            None => flag_text(
                match long {
                    Some(l) => Some(l@),
                    None => None,
                },
                short,
            ) is None,
        },
{
    match long {
        Some(l) => {
            let mut f = owned("--");
            f.append(l);
            Some(f)
        },
        None => match short {
            Some(c) => {
                let mut f = owned("-");
                crate::text::push_char(&mut f, c);
                proof {
                    reveal_strlit("-");
                }
                assert(f@ =~= seq!['-', c]);
                Some(f)
            },
            None => None,
        },
    }
}

/// The hint of the accepted values after a prompt: ` [a, b]`, or nothing.
pub open spec fn choices_hint(values: Seq<Seq<char>>) -> Seq<char> {
    if values.len() > 0 {
        " ["@ + join(values, ", "@) + "]"@
    } else {
        seq![]
    }
}

/// The hint of the accepted values after a prompt.
pub fn choices_suffix(values: &Vec<String>) -> (r: String)
    ensures
        r@ == choices_hint(string_views(values@)),
{
    if values.len() > 0 {
        let mut s = owned(" [");
        s.append(join_strings(values, ", ").as_str());
        s.append("]");
        s
    } else {
        String::new()
    }
}

/// The pieces of a comma-separated answer, each trimmed.
pub open spec fn list_items(s: Seq<char>) -> Seq<Seq<char>> {
    split_on(s, ',').map_values(|p: Seq<char>| trim(p))
}

/// What an answer for a positional argument adds to the command line: the
/// answer, or the trimmed pieces of a comma-separated list for arguments
/// that take several values; nothing for an empty answer, which aborts
/// (`None`) when the argument is required.
pub open spec fn positional_words(several: bool, required: bool, val: Seq<char>) -> Option<Seq<Seq<char>>> {
    if val.len() == 0 {
        if required { None } else { Some(seq![]) }
    } else if several {
        Some(list_items(val))
    } else {
        Some(seq![val])
    }
}

/// The words of an answer for a positional argument; `None` aborts.
pub fn positional_tokens(several: bool, required: bool, val: &str) -> (r: Option<Vec<String>>)
    ensures
        match r {
            Some(w) => positional_words(several, required, val@) == Some(string_views(w@)),
            None => positional_words(several, required, val@) is None,
        },
{
    let c = chars_of(val);
    if c.len() == 0 {
        if required {
            return None;
        }
        let w: Vec<String> = Vec::new();
        assert(string_views(w@) =~= seq![]);
        return Some(w);
    }
    if several {
        let parts = split_char(&c, ',');
        let mut w: Vec<String> = Vec::new();
        let mut i: usize = 0;
        while i < parts.len()
            invariant
                0 <= i <= parts.len(),
                views(parts@) == split_on(val@, ','),
                w@.len() == i,
                forall|j: int| 0 <= j < i ==> w@[j]@ == trim(parts@[j]@),
            decreases parts.len() - i,
        {
            w.push(string_of(&trim_ws(&parts[i])));
            i += 1;
        }
        assert(string_views(w@) =~= list_items(val@));
        Some(w)
    } else {
        let w = vec![owned(val)];
        assert(string_views(w@) =~= seq![val@]);
        Some(w)
    }
}

/// What an answer for an option adds: the flag and the value when there is
/// one; nothing for an empty answer, which aborts when the option is
/// required.
pub open spec fn option_words(flag: Option<Seq<char>>, required: bool, val: Seq<char>) -> Option<Seq<Seq<char>>> {
    if val.len() == 0 {
        if required { None } else { Some(seq![]) }
    } else {
        match flag {
            Some(f) => Some(seq![f, val]),
            None => Some(seq![val]),
        }
    }
}

/// The words of an answer for an option; `None` aborts.
pub fn option_tokens(flag: Option<&str>, required: bool, val: &str) -> (r: Option<Vec<String>>)
    ensures
        match r {
            Some(w) => option_words(
                match flag {
                    Some(f) => Some(f@),
                    None => None,
                },
                required,
                val@,
            ) == Some(string_views(w@)),
            None => option_words(
                match flag {
                    Some(f) => Some(f@),
                    None => None,
                },
                required,
                val@,
            ) is None,
        },
{
    let c = chars_of(val);
    if c.len() == 0 {
        if required {
            return None;
        }
        let w: Vec<String> = Vec::new();
        assert(string_views(w@) =~= seq![]);
        return Some(w);
    }
    let mut w: Vec<String> = Vec::new();
    match flag {
        Some(f) => {
            w.push(owned(f));
        },
        None => {},
    }
    w.push(owned(val));
    assert(string_views(w@) =~= option_words(
        match flag {
            Some(f) => Some(f@),
            None => None,
        },
        required,
        val@,
    )->0);
    Some(w)
}

/// Whether the words so far are those of `ao user add`, whose prompts are
/// worded for people.
pub open spec fn is_user_add(words: Seq<Seq<char>>) -> bool {
    words.len() == 3 && words[1] == "user"@ && words[2] == "add"@
}

/// Whether the words so far are those of `ao user add`.
pub fn user_add_words(words: &Vec<String>) -> (r: bool)
    ensures
        r == is_user_add(string_views(words@)),
{
    words.len() == 3 && str_eq(words[1].as_str(), "user") && str_eq(words[2].as_str(), "add")
}

/// The prompt for an argument: the wording for people for the fields of
/// `user add`, else the argument's help, else its name.
pub open spec fn prompt_text(user_add: bool, id: Seq<char>, help: Option<Seq<char>>) -> Seq<char> {
    if user_add && id == "username"@ {
        "Enter the unique system username"@
    } else if user_add && id == "name"@ {
        "User's full name"@
    } else if user_add && id == "email"@ {
        "User's email address"@
    } else if user_add && id == "no_create_home"@ {
        "Should the home directory be created?"@
    } else {
        match help {
            Some(h) => h,
            None => id,
        }
    }
}

/// The prompt for an argument.
pub fn prompt_for(user_add: bool, id: &str, help: Option<&str>) -> (r: String)
    ensures
        r@ == prompt_text(
            user_add,
            id@,
            match help {
                Some(h) => Some(h@),
                None => None,
            },
        ),
{
    if user_add && str_eq(id, "username") {
        owned("Enter the unique system username")
    } else if user_add && str_eq(id, "name") {
        owned("User's full name")
    } else if user_add && str_eq(id, "email") {
        owned("User's email address")
    } else if user_add && str_eq(id, "no_create_home") {
        owned("Should the home directory be created?")
    } else {
        match help {
            Some(h) => owned(h),
            None => owned(id),
        }
    }
}

/// A command and its subcommands, without `help`, as the tree shows it.
pub struct CommandTree {
    pub name: String,
    pub children: Vec<CommandTree>,
}

/// The lines that draw a subtree: the marker of its place, its name, then
/// its children with the indentation that continues the branches.
pub open spec fn subtree_lines(t: CommandTree, indent: Seq<char>, last: bool) -> Seq<Seq<char>>
    decreases t, 1nat,
{
    let line = indent + (if last { "└── "@ } else { "├── "@ }) + t.name@;
    let next = indent + (if last { "    "@ } else { "│   "@ });
    seq![line] + children_lines(t.children@, next)
}

/// The lines of several subtrees; the last one closes the branch.
pub open spec fn children_lines(cs: Seq<CommandTree>, indent: Seq<char>) -> Seq<Seq<char>>
    decreases cs, 0nat,
{
    if cs.len() == 0 {
        seq![]
    } else {
        subtree_lines(cs[0], indent, cs.len() == 1) + children_lines(cs.subrange(1, cs.len() as int), indent)
    }
}

/// The lines of the whole tree: the root's name, then its subcommands.
pub open spec fn tree_lines(t: CommandTree) -> Seq<Seq<char>> {
    seq![t.name@] + children_lines(t.children@, seq![])
}

fn subtree_into(t: &CommandTree, indent: &String, last: bool, out: &mut Vec<String>)
    ensures
        string_views(final(out)@) == string_views(old(out)@) + subtree_lines(*t, indent@, last),
    decreases t, 1nat,
{
    let mut line = indent.clone();
    line.append(if last { "└── " } else { "├── " });
    line.append(t.name.as_str());
    let mut next = indent.clone();
    next.append(if last { "    " } else { "│   " });
    let ghost before = string_views(out@);
    out.push(line);
    assert(string_views(out@) =~= before.push(line@));
    proof {
        assert(decreases_to!(*t => t.children));
    }
    children_into(&t.children, &next, out);
    assert(string_views(out@) =~= before + subtree_lines(*t, indent@, last));
}

fn children_into(cs: &Vec<CommandTree>, indent: &String, out: &mut Vec<String>)
    ensures
        string_views(final(out)@) == string_views(old(out)@) + children_lines(cs@, indent@),
    decreases cs, 0nat,
{
    let ghost start = string_views(out@);
    let mut i: usize = 0;
    assert(cs@.subrange(0, cs@.len() as int) =~= cs@);
    while i < cs.len()
        invariant
            0 <= i <= cs.len(),
            string_views(out@) + children_lines(cs@.subrange(i as int, cs@.len() as int), indent@) == start
                + children_lines(cs@, indent@),
        decreases cs.len() - i,
    {
        let ghost rest = cs@.subrange(i as int, cs@.len() as int);
        assert(rest[0] == cs@[i as int]);
        assert(rest.subrange(1, rest.len() as int) =~= cs@.subrange(i + 1, cs@.len() as int));
        proof {
            assert(decreases_to!(cs => cs@));
            assert(decreases_to!(cs@ => cs@[i as int]));
        }
        let ghost before = string_views(out@);
        subtree_into(&cs[i], indent, i + 1 == cs.len(), out);
        assert(string_views(out@) + children_lines(cs@.subrange(i + 1, cs@.len() as int), indent@) =~= before
            + children_lines(rest, indent@));
        i += 1;
    }
    assert(cs@.subrange(cs@.len() as int, cs@.len() as int) =~= seq![]);
    assert(string_views(out@) + children_lines(seq![], indent@) =~= string_views(out@));
}

/// The printed command tree, one line each.
pub fn dump_command_tree(t: &CommandTree) -> (r: Vec<String>)
    ensures
        string_views(r@) == tree_lines(*t),
{
    let mut out: Vec<String> = vec![t.name.clone()];
    assert(string_views(out@) =~= seq![t.name@]);
    children_into(&t.children, &String::new(), &mut out);
    out
}

} // verus!
