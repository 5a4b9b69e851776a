//! Whether and how to reveal a file in the Windows file explorer.

use vstd::prelude::*;

use crate::text::{
    ascii_lower, eq_ignore_ascii_case, eq_ignore_ascii_case_str, owned, replace_char,
    replace_char_str, trim, trim_str,
};

verus! {

/// The user's answer asks for the explorer: trimmed, it is `y` in either case.
pub open spec fn asks_for_explorer(input: Seq<char>) -> bool {
    eq_ignore_ascii_case(trim(input), seq!['y'])
}

/// Whether the answer `input` asks to open the explorer.
pub fn wants_explorer(input: &str) -> (b: bool)
    ensures
        b == asks_for_explorer(input@),
{
    let t = trim_str(input);
    let y = owned("y");
    proof {
        reveal_strlit("y");
    }
    eq_ignore_ascii_case_str(t.as_str(), y.as_str())
}

/// The path as the explorer expects it: every `/` becomes `\`.
pub open spec fn explorer_path(path: Seq<char>) -> Seq<char> {
    replace_char(path, '/', '\\')
}

/// The arguments handed to `cmd` to select `path` in the explorer.
pub fn explorer_args(path: &str) -> (args: Vec<String>)
    ensures
        args.deep_view() == seq!["/c"@, "explorer"@, "/select,"@, explorer_path(path@)],
{
    let mut args: Vec<String> = Vec::new();
    args.push(owned("/c"));
    args.push(owned("explorer"));
    args.push(owned("/select,"));
    args.push(replace_char_str(path, '/', '\\'));
    assert(args.deep_view() =~= seq!["/c"@, "explorer"@, "/select,"@, explorer_path(path@)]);
    args
}


/// The explorer is opened exactly when the answer, trimmed, is `y` or `Y`.
pub proof fn law_explorer_answer(input: Seq<char>)
    ensures
        asks_for_explorer(input) <==> (trim(input) == seq!['y'] || trim(input) == seq!['Y']),
{
    let t = trim(input);
    if asks_for_explorer(input) {
        assert(t.len() == 1);
        assert(ascii_lower(t[0]) == ascii_lower('y'));
        assert(t =~= seq![t[0]]);
    }
    if t == seq!['y'] || t == seq!['Y'] {
        assert(ascii_lower(t[0]) == 'y');
    }
}

/// The path handed to the explorer has every `/` turned into `\` and every other character
/// kept in place.
pub proof fn law_explorer_path(path: Seq<char>)
    ensures
        explorer_path(path).len() == path.len(),
        forall|i: int| 0 <= i < path.len() ==> #[trigger] explorer_path(path)[i] != '/',
        forall|i: int|
            0 <= i < path.len() ==> (path[i] == '/' ==> #[trigger] explorer_path(path)[i] == '\\')
                && (path[i] != '/' ==> explorer_path(path)[i] == path[i]),
{
}

} // verus!
