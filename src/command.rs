//! The command table: which action a name selects, and what each action does
//! to the configuration and asks of its caller.

use crate::config::{
    generated_path, generated_text, help_lines, listed, out_path, texts, with_entries, with_mode,
    other_than, ConfigView, GeneratedFile, Webpacker,
};
use vstd::prelude::*;

verus! {

/// First line printed for a name that selects no action.
pub const UNKNOWN_FIRST: &'static str = "Does not found action!,";

/// Second line printed for a name that selects no action.
pub const UNKNOWN_SECOND: &'static str = "please use `help` to show list of actions command.";

/// An action, with its argument where it takes one.
pub enum Action {
    New,
    SetMode(String),
    ShowMode,
    ShowOutput,
    ListEntry,
    AddEntry(String),
    DelEntry(String),
    Build,
    Help,
    Unknown,
}

/// Why a command line selects no action to run.
pub enum CommandError {
    /// The action takes an argument and none was given.
    MissingItem,
}

/// What the caller must do once an action has run.
pub enum Effect {
    /// Store the whole configuration.
    Save,
    /// Print these lines, in order.
    Print(Vec<String>),
    /// Create this file with these contents.
    Write(GeneratedFile),
}

/// The characters of an optional argument.
pub open spec fn item_text(item: Option<String>) -> Option<Seq<char>> {
    match item {
        Some(s) => Some(s@),
        None => None,
    }
}

/// The action names that take an argument.
pub open spec fn needs_item(name: Seq<char>) -> bool {
    name == "set_mode"@ || name == "add_entry"@ || name == "del_entry"@
}

/// `a` is the action that `name` selects with argument `item`.
pub open spec fn selects(name: Seq<char>, item: Option<Seq<char>>, a: Action) -> bool {
    if name == "new"@ {
        a is New
    } else if name == "set_mode"@ {
        a matches Action::SetMode(m) && item == Some(m@)
    } else if name == "show_mode"@ {
        a is ShowMode
    } else if name == "show_output"@ {
        a is ShowOutput
    } else if name == "list_entry"@ {
        a is ListEntry
    } else if name == "add_entry"@ {
        a matches Action::AddEntry(x) && item == Some(x@)
    } else if name == "del_entry"@ {
        a matches Action::DelEntry(x) && item == Some(x@)
    } else if name == "build"@ {
        a is Build
    } else if name == "help"@ {
        a is Help
    } else {
        a is Unknown
    }
}

/// The lines printed for a name that selects no action.
pub open spec fn unknown_lines() -> Seq<Seq<char>> {
    seq![UNKNOWN_FIRST@, UNKNOWN_SECOND@]
}

/// `e` prints exactly `lines`.
pub open spec fn prints(e: Effect, lines: Seq<Seq<char>>) -> bool {
    e matches Effect::Print(l) && texts(l@) == lines
}

/// Running `a` in working directory `cwd` takes the configuration from
/// `pre` to `post` and asks for effect `e`.
pub open spec fn runs(pre: ConfigView, a: Action, cwd: Seq<char>, post: ConfigView, e: Effect) -> bool {
    match a {
        Action::New => post == pre && e is Save,
        Action::SetMode(m) => post == with_mode(pre, m@) && e is Save,
        Action::ShowMode => post == pre && prints(e, seq![pre.mode]),
        Action::ShowOutput => post == pre && prints(e, seq![out_path(pre, cwd)]),
        Action::ListEntry => post == pre && prints(e, listed(pre.entrys)),
        Action::AddEntry(x) => post == with_entries(pre, pre.entrys.push(x@)) && e is Save,
        Action::DelEntry(x) => post == with_entries(pre, pre.entrys.filter(other_than(x@)))
            && e is Save,
        Action::Build => post == pre && (e matches Effect::Write(f) && f.path@ == generated_path(pre)
            && f.contents@ == generated_text(pre, cwd)),
        Action::Help => post == pre && prints(e, help_lines()),
        Action::Unknown => post == pre && prints(e, unknown_lines()),
    }
}

/// A name outside the action table, whatever its argument, selects an action
/// that leaves the configuration unchanged and prints the guidance lines.
pub proof fn lemma_unknown_name_changes_nothing(
    name: Seq<char>,
    item: Option<Seq<char>>,
    a: Action,
    cwd: Seq<char>,
    pre: ConfigView,
    post: ConfigView,
    e: Effect,
)
    requires
        name != "new"@,
        name != "set_mode"@,
        name != "show_mode"@,
        name != "show_output"@,
        name != "list_entry"@,
        name != "add_entry"@,
        name != "del_entry"@,
        name != "build"@,
        name != "help"@,
        selects(name, item, a),
        runs(pre, a, cwd, post, e),
    ensures
        post == pre,
        prints(e, unknown_lines()),
{
}

/// The action names that take no argument are told apart from those that do.
proof fn lemma_names_without_item()
    ensures
        !needs_item("new"@),
        !needs_item("show_mode"@),
        !needs_item("show_output"@),
        !needs_item("list_entry"@),
        !needs_item("build"@),
        !needs_item("help"@),
{
    reveal_strlit("new");
    reveal_strlit("set_mode");
    reveal_strlit("show_mode");
    reveal_strlit("show_output");
    reveal_strlit("list_entry");
    reveal_strlit("add_entry");
    reveal_strlit("del_entry");
    reveal_strlit("build");
    reveal_strlit("help");
    assert("new"@.len() != "set_mode"@.len());
    assert("new"@.len() != "add_entry"@.len());
    assert("new"@.len() != "del_entry"@.len());
    assert("show_mode"@.len() != "set_mode"@.len());
    assert("show_mode"@[0] != "add_entry"@[0]);
    assert("show_mode"@[0] != "del_entry"@[0]);
    assert("show_output"@.len() != "set_mode"@.len());
    assert("show_output"@.len() != "add_entry"@.len());
    assert("show_output"@.len() != "del_entry"@.len());
    assert("list_entry"@.len() != "set_mode"@.len());
    assert("list_entry"@.len() != "add_entry"@.len());
    assert("list_entry"@.len() != "del_entry"@.len());
    assert("build"@.len() != "set_mode"@.len());
    assert("build"@.len() != "add_entry"@.len());
    assert("build"@.len() != "del_entry"@.len());
    assert("help"@.len() != "set_mode"@.len());
    assert("help"@.len() != "add_entry"@.len());
    assert("help"@.len() != "del_entry"@.len());
}

fn is_named(name: &str, known: &str) -> (r: bool)
    ensures
        r == (name@ == known@),
{
    String::from_str(name).eq(&String::from_str(known))
}

impl Action {
    /// The action that `name` selects, with `item` as its argument. A name
    /// outside the table selects [`Action::Unknown`]; an action that takes an
    /// argument fails without one.
    pub fn parse(name: &str, item: Option<String>) -> (r: Result<Action, CommandError>)
        ensures
            r is Err <==> (needs_item(name@) && item is None),
            r matches Ok(a) ==> selects(name@, item_text(item), a),
    {
        proof {
            lemma_names_without_item();
        }
        if is_named(name, "new") {
            Ok(Action::New)
        } else if is_named(name, "set_mode") {
            match item {
                Some(m) => Ok(Action::SetMode(m)),
                None => Err(CommandError::MissingItem),
            }
        } else if is_named(name, "show_mode") {
            Ok(Action::ShowMode)
        } else if is_named(name, "show_output") {
            Ok(Action::ShowOutput)
        } else if is_named(name, "list_entry") {
            Ok(Action::ListEntry)
        } else if is_named(name, "add_entry") {
            match item {
                Some(x) => Ok(Action::AddEntry(x)),
                None => Err(CommandError::MissingItem),
            }
        } else if is_named(name, "del_entry") {
            match item {
                Some(x) => Ok(Action::DelEntry(x)),
                None => Err(CommandError::MissingItem),
            }
        } else if is_named(name, "build") {
            Ok(Action::Build)
        } else if is_named(name, "help") {
            Ok(Action::Help)
        } else {
            Ok(Action::Unknown)
        }
    }
}

impl Webpacker {
    /// Runs `action` in working directory `cwd`: applies its change to the
    /// configuration and returns what the caller must then do. An unknown
    /// action leaves the configuration as it was.
    pub fn dispatch(&mut self, action: Action, cwd: &str) -> (e: Effect)
        ensures
            runs(old(self)@, action, cwd@, final(self)@, e),
    {
        match action {
            Action::New => Effect::Save,
            Action::SetMode(m) => {
                self.set_mode(m.as_str());
                Effect::Save
            },
            Action::ShowMode => {
                let mut lines: Vec<String> = Vec::new();
                lines.push(self.show_mode());
                assert(texts(lines@) =~= seq![self@.mode]);
                Effect::Print(lines)
            },
            Action::ShowOutput => {
                let mut lines: Vec<String> = Vec::new();
                lines.push(self.show_output(cwd));
                assert(texts(lines@) =~= seq![out_path(self@, cwd@)]);
                Effect::Print(lines)
            },
            Action::ListEntry => Effect::Print(self.list_entries()),
            Action::AddEntry(x) => {
                self.add_entry(x.as_str());
                Effect::Save
            },
            Action::DelEntry(x) => {
                self.del_entry(x.as_str());
                Effect::Save
            },
            Action::Build => Effect::Write(self.build(cwd)),
            Action::Help => Effect::Print(self.help()),
            Action::Unknown => {
                let mut lines: Vec<String> = Vec::new();
                lines.push(String::from_str(UNKNOWN_FIRST));
                lines.push(String::from_str(UNKNOWN_SECOND));
                assert(texts(lines@) =~= unknown_lines());
                Effect::Print(lines)
            },
        }
    }
}

} // verus!
