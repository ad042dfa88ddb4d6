//! Turning an argument template into the argument vector of a command.
use vstd::prelude::*;
use crate::text::{contains_str, replace_all, replace_str, seq_contains, strs};

verus! {

/// The token that stands for the target path inside a template entry.
pub open spec fn placeholder() -> Seq<char> {
    seq!['{', 'p', 'a', 't', 'h', '}']
}

/// One template entry with the target path substituted.
pub open spec fn substitute(arg: Seq<char>, path: Seq<char>) -> Seq<char> {
    if seq_contains(arg, placeholder()) {
        replace_all(arg, placeholder(), path)
    } else {
        arg
    }
}

/// Whether some entry of the template holds the placeholder.
pub open spec fn mentions_path(template: Seq<Seq<char>>) -> bool {
    exists|i: int| 0 <= i < template.len() && seq_contains(#[trigger] template[i], placeholder())
}

/// The arguments for `path` from an optional template: each entry substituted,
/// and `path` appended when no entry held the placeholder.
pub open spec fn arguments_for(template: Option<Seq<Seq<char>>>, path: Seq<char>) -> Seq<Seq<char>> {
    match template {
        None => seq![path],
        Some(t) => {
            let subst = t.map_values(|a: Seq<char>| substitute(a, path));
            if mentions_path(t) {
                subst
            } else {
                subst.push(path)
            }
        },
    }
}

/// Builds the argument vector for `path` from an optional template.
pub fn build_command_arguments(arguments: Option<Vec<String>>, path: &str) -> (r: Vec<String>)
    ensures
        strs(r@) == arguments_for(
            match arguments {
                Some(v) => Some(strs(v@)),
                None => None,
            },
            path@,
        ),
{
    proof {
        reveal_strlit("{path}");
    }
    assert("{path}"@ =~= placeholder());
    let mut resolved: Vec<String> = Vec::new();
    let mut inserted_path = false;
    match &arguments {
        Some(template) => {
            let ghost t = strs(template@);
            let mut i: usize = 0;
            while i < template.len()
                invariant
                    t == strs(template@),
                    "{path}"@ == placeholder(),
                    i <= template@.len(),
                    strs(resolved@) =~= t.subrange(0, i as int).map_values(
                        |a: Seq<char>| substitute(a, path@),
                    ),
                    inserted_path == mentions_path(t.subrange(0, i as int)),
                decreases template@.len() - i,
            {
                let argument = &template[i];
                let ghost prev = resolved@;
                assert(t[i as int] == argument@);
                let ghost before = t.subrange(0, i as int);
                assert(t.subrange(0, i + 1) =~= before.push(t[i as int]));
                if contains_str(argument.as_str(), "{path}") {
                    resolved.push(replace_str(argument.as_str(), "{path}", path));
                    inserted_path = true;
                    assert(mentions_path(t.subrange(0, i + 1))) by {
                        assert(t.subrange(0, i + 1)[i as int] == t[i as int]);
                    }
                } else {
                    resolved.push(argument.clone());
                    assert(mentions_path(t.subrange(0, i + 1)) == mentions_path(before)) by {
                        if mentions_path(t.subrange(0, i + 1)) {
                            let k = choose|k: int|
                                0 <= k < i + 1 && seq_contains(
                                    #[trigger] t.subrange(0, i + 1)[k],
                                    placeholder(),
                                );
                            assert(k < i);
                            assert(before[k] == t.subrange(0, i + 1)[k]);
                        }
                        if mentions_path(before) {
                            let k = choose|k: int|
                                0 <= k < i && seq_contains(#[trigger] before[k], placeholder());
                            assert(t.subrange(0, i + 1)[k] == before[k]);
                        }
                    }
                }
                assert(strs(resolved@) =~= strs(prev).push(substitute(t[i as int], path@)));
                assert(strs(resolved@) =~= t.subrange(0, i + 1).map_values(
                    |a: Seq<char>| substitute(a, path@),
                ));
                i = i + 1;
            }
            assert(t.subrange(0, template@.len() as int) =~= t);
        },
        None => {},
    }
    if !inserted_path {
        resolved.push(path.to_string());
    }
    proof {
        if arguments is None {
            assert(strs(resolved@) =~= seq![path@]);
        } else {
            let t = strs(arguments->0@);
            let subst = t.map_values(|a: Seq<char>| substitute(a, path@));
            if !inserted_path {
                assert(strs(resolved@) =~= subst.push(path@));
            }
        }
    }
    resolved
}

/// Building arguments: a template that holds the placeholder is substituted
/// entry by entry and nothing is appended; a template without it keeps its
/// entries and gains the path as a last entry; no template gives exactly the
/// path.
pub proof fn lemma_argument_building(template: Seq<Seq<char>>, path: Seq<char>)
    ensures
        mentions_path(template) ==> arguments_for(Some(template), path) == template.map_values(
            |a: Seq<char>| substitute(a, path),
        ),
        mentions_path(template) ==> arguments_for(Some(template), path).len() == template.len(),
        !mentions_path(template) ==> arguments_for(Some(template), path) == template.push(path),
        arguments_for(None, path) == seq![path],
{
    if !mentions_path(template) {
        let subst = template.map_values(|a: Seq<char>| substitute(a, path));
        assert forall|i: int| 0 <= i < template.len() implies subst[i] == template[i] by {
            assert(!seq_contains(template[i], placeholder()));
        }
        assert(subst =~= template);
    }
}

} // verus!
