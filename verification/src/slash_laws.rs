//! What holds of slash commands and their arguments.

use vstd::prelude::*;

use crate::slash;
use crate::text;
use crate::text_laws;

verus! {

/// The arguments of `/mcp` are its action and its target, with a space between
/// them where there are both, and none where there is neither.
pub proof fn law_arguments_are_action_and_target(action: Seq<char>, target: Seq<char>)
    ensures
        slash::mcp_arguments(None, None) is None,
        slash::mcp_arguments(Some(action), None) == Some(action),
        slash::mcp_arguments(None, Some(target)) == Some(target),
        ({
            let both = slash::mcp_arguments(Some(action), Some(target))->0;
            &&& slash::mcp_arguments(Some(action), Some(target)) is Some
            &&& both.len() == action.len() + 1 + target.len()
            &&& both.take(action.len() as int) == action
            &&& both[action.len() as int] == ' '
            &&& both.skip(action.len() as int + 1) == target
        }),
{
    reveal_strlit(" ");
    assert(" "@.len() == 1 && " "@[0] == ' ');
    let both = slash::mcp_arguments(Some(action), Some(target))->0;
    assert(both.take(action.len() as int) =~= action);
    assert(both.skip(action.len() as int + 1) =~= target);
}

/// Tools are served where `serve` alone is asked for, white space aside.
pub proof fn law_serving_is_asked_for_by_its_word(args: Seq<char>)
    ensures
        !slash::asks_to_serve(None),
        slash::asks_to_serve(Some("serve"@)),
        slash::asks_to_serve(Some(args)) <==> text::trimmed(args) == "serve"@,
{
    reveal_strlit("serve");
    assert("serve"@.len() == 5);
    assert("serve"@[0] == 's');
    assert("serve"@[4] == 'e');
    assert(!text::is_whitespace("serve"@[0]));
    assert(!text::is_whitespace("serve"@.last()));
}

/// The name of a command is its first word without the slash in front of it, whatever
/// follows.
pub proof fn law_names_stand_behind_the_slash(name: Seq<char>, gap: char, rest: Seq<char>)
    requires
        name.len() > 0,
        name[0] != '/',
        forall|i: int| 0 <= i < name.len() ==> !text::is_whitespace(#[trigger] name[i]),
        text::is_whitespace(gap),
    ensures
        slash::root_of(name) == name,
        slash::root_of(seq!['/'] + name) == name,
        slash::root_of(seq!['/'] + name + seq![gap] + rest) == name,
{
    text_laws::law_first_word_ends_at_white_space(name, gap, rest);
    let bare = seq!['/'] + name;
    assert(bare.skip(1) =~= name);
    assert(text::without_leading(name, '/') == name);
    assert(text::without_leading(bare, '/') == name);
    let typed = seq!['/'] + name + seq![gap] + rest;
    let line = name + seq![gap] + rest;
    assert(typed.skip(1) =~= line);
    assert(line[0] == name[0]);
    assert(text::without_leading(line, '/') == line);
    assert(text::without_leading(typed, '/') == line);
}

} // verus!
