//! Directory-browser item actions.
//!
//! The browser shows one file or directory per line; an action on the item
//! under the cursor asks the user one question (a target name, or a yes/no
//! confirmation) and then runs one shell command. Prompting and running are
//! the host's side; these functions decide, from the item and the user's
//! answer alone, exactly which command — if any — is to run.

use vstd::prelude::*;
use vstd::string::StrSliceExecFns;

verus! {

/// The browser line an action applies to.
pub struct DiredItem {
    pub name: String,
    pub is_directory: bool,
}

/// Whether a sequence of characters reads `.` or `..`.
pub open spec fn spec_is_dot_entry(name: Seq<char>) -> bool {
    name =~= seq!['.'] || name =~= seq!['.', '.']
}

/// The `.` and `..` directory entries are never acted on.
pub open spec fn spec_is_protected(item: DiredItem) -> bool {
    item.is_directory && spec_is_dot_entry(item.name@)
}

/// Whether the name ends in a path separator, marking a directory.
pub open spec fn spec_ends_with_slash(name: Seq<char>) -> bool {
    name.len() > 0 && name[name.len() - 1] == '/'
}

/// An affirmative confirmation: exactly `y` or `Y`.
pub open spec fn spec_is_affirmative(answer: Seq<char>) -> bool {
    answer.len() == 1 && (answer[0] == 'y' || answer[0] == 'Y')
}

/// Whether `item` is a `.` or `..` directory entry, which no action touches.
fn item_is_protected(item: &DiredItem) -> (protected: bool)
    ensures
        protected == spec_is_protected(*item),
{
    if !item.is_directory {
        return false;
    }
    let n = item.name.as_str().unicode_len();
    if n == 1 {
        item.name.as_str().get_char(0) == '.'
    } else if n == 2 {
        item.name.as_str().get_char(0) == '.' && item.name.as_str().get_char(1) == '.'
    } else {
        false
    }
}

/// The command that deletes `item`, given the user's answer to the
/// confirmation prompt: `rm -rf <name>` exactly when the item may be acted
/// on and the answer is affirmative (`y` or `Y`); otherwise no command.
pub fn delete(item: &DiredItem, answer: &String) -> (cmd: Option<Vec<String>>)
    ensures
        match cmd {
            Some(argv) => {
                &&& !spec_is_protected(*item)
                &&& spec_is_affirmative(answer@)
                &&& argv.deep_view() == seq!["rm"@, "-rf"@, item.name@]
            },
            None => spec_is_protected(*item) || !spec_is_affirmative(answer@),
        },
{
    if item_is_protected(item) {
        return None;
    }
    let affirmative = answer.as_str().unicode_len() == 1 && (answer.as_str().get_char(0) == 'y'
        || answer.as_str().get_char(0) == 'Y');
    if affirmative {
        let argv = vec!["rm".to_owned(), "-rf".to_owned(), item.name.clone()];
        proof {
            assert(argv.deep_view() =~= seq!["rm"@, "-rf"@, item.name@]);
        }
        Some(argv)
    } else {
        None
    }
}

/// The command that copies `item` to the answered target: `cp -rf <name>
/// <target>` exactly when the item may be acted on and the target is
/// non-empty; otherwise no command.
pub fn copy(item: &DiredItem, target: &String) -> (cmd: Option<Vec<String>>)
    ensures
        match cmd {
            Some(argv) => {
                &&& !spec_is_protected(*item)
                &&& target@.len() > 0
                &&& argv.deep_view() == seq!["cp"@, "-rf"@, item.name@, target@]
            },
            None => spec_is_protected(*item) || target@.len() == 0,
        },
{
    if item_is_protected(item) {
        return None;
    }
    if !target.as_str().is_empty() {
        let argv = vec!["cp".to_owned(), "-rf".to_owned(), item.name.clone(), target.clone()];
        proof {
            assert(argv.deep_view() =~= seq!["cp"@, "-rf"@, item.name@, target@]);
        }
        Some(argv)
    } else {
        None
    }
}

/// The command that renames `item` to the answered target: `mv <name>
/// <target>` exactly when the item may be acted on and the target is
/// non-empty; otherwise no command.
pub fn rename(item: &DiredItem, target: &String) -> (cmd: Option<Vec<String>>)
    ensures
        match cmd {
            Some(argv) => {
                &&& !spec_is_protected(*item)
                &&& target@.len() > 0
                &&& argv.deep_view() == seq!["mv"@, item.name@, target@]
            },
            None => spec_is_protected(*item) || target@.len() == 0,
        },
{
    if item_is_protected(item) {
        return None;
    }
    if !target.as_str().is_empty() {
        let argv = vec!["mv".to_owned(), item.name.clone(), target.clone()];
        proof {
            assert(argv.deep_view() =~= seq!["mv"@, item.name@, target@]);
        }
        Some(argv)
    } else {
        None
    }
}

/// The command that creates the answered name: nothing for an empty answer;
/// `mkdir <name-less-slash>` when the answer ends in `/`; `touch <name>`
/// otherwise.
pub fn create(answer: &String) -> (cmd: Option<Vec<String>>)
    ensures
        match cmd {
            Some(argv) => answer@.len() > 0 && {
                if spec_ends_with_slash(answer@) {
                    argv.deep_view() == seq![
                        "mkdir"@,
                        answer@.subrange(0, answer@.len() - 1),
                    ]
                } else {
                    argv.deep_view() == seq!["touch"@, answer@]
                }
            },
            None => answer@.len() == 0,
        },
{
    let n = answer.as_str().unicode_len();
    if n == 0 {
        return None;
    }
    let argv: Vec<String>;
    if answer.as_str().get_char(n - 1) == '/' {
        let stem = answer.as_str().substring_char(0, n - 1).to_owned();
        argv = vec!["mkdir".to_owned(), stem];
        proof {
            assert(argv.deep_view() =~= seq!["mkdir"@, answer@.subrange(0, answer@.len() - 1)]);
        }
    } else {
        argv = vec!["touch".to_owned(), answer.clone()];
        proof {
            assert(argv.deep_view() =~= seq!["touch"@, answer@]);
        }
    }
    Some(argv)
}

} // verus!
