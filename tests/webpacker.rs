use webpacker::command::{Action, CommandError, Effect};
use webpacker::config::{LoadError, Webpacker};
use webpacker::text::{normalize_dir, pad_right};

fn strings(items: &[&str]) -> Vec<String> {
    items.iter().map(|s| s.to_string()).collect()
}

fn with_entries(items: &[&str]) -> Webpacker {
    let mut w = Webpacker::defaults();
    w.entrys = strings(items);
    w
}

fn printed(e: Effect) -> Vec<String> {
    match e {
        Effect::Print(lines) => lines,
        _ => panic!("expected lines to print"),
    }
}

#[test]
fn defaults_hold_fixed_values() {
    let w = Webpacker::defaults();
    assert_eq!(w.webpack_file, "webpack.config.js");
    assert_eq!(w.webpack_path, "dev\\backend\\");
    assert_eq!(w.mode, "development");
    assert_eq!(w.output, "html/assets/js/app");
    assert!(w.entrys.is_empty());
}

#[test]
fn empty_store_loads_defaults() {
    let w = match Webpacker::new("", None) {
        Ok(w) => w,
        Err(_) => panic!("empty store must load"),
    };
    assert_eq!(w.mode, "development");
    assert_eq!(w.webpack_file, "webpack.config.js");
    assert!(w.entrys.is_empty());
}

#[test]
fn decoded_store_is_kept_exactly() {
    let mut stored = with_entries(&["b", "a", "b"]);
    stored.mode = "production".to_string();
    let w = match Webpacker::new("{ \"mode\": \"production\" }", Some(stored)) {
        Ok(w) => w,
        Err(_) => panic!("decoded store must load"),
    };
    assert_eq!(w.mode, "production");
    assert_eq!(w.entrys, strings(&["b", "a", "b"]));
}

#[test]
fn corrupt_store_fails() {
    assert!(matches!(Webpacker::new("not json at all", None), Err(LoadError::Corrupt)));
    assert!(matches!(Webpacker::new(" ", None), Err(LoadError::Corrupt)));
}

#[test]
fn add_entry_appends_and_keeps_duplicates() {
    let mut w = with_entries(&["a", "b"]);
    w.add_entry("x");
    assert_eq!(w.entrys, strings(&["a", "b", "x"]));
    w.add_entry("a");
    assert_eq!(w.entrys, strings(&["a", "b", "x", "a"]));
    assert_eq!(w.mode, "development");
}

#[test]
fn del_entry_removes_every_match() {
    let mut w = with_entries(&["a", "b", "a"]);
    w.del_entry("a");
    assert_eq!(w.entrys, strings(&["b"]));
    w.del_entry("zzz");
    assert_eq!(w.entrys, strings(&["b"]));
    w.del_entry("b");
    assert!(w.entrys.is_empty());
}

#[test]
fn list_entries_prefixes_each_line() {
    let w = with_entries(&["x", "y"]);
    assert_eq!(w.list_entries(), strings(&["- x", "- y"]));
    assert!(Webpacker::defaults().list_entries().is_empty());
}

#[test]
fn set_and_show_mode() {
    let mut w = Webpacker::defaults();
    w.set_mode("production");
    assert_eq!(w.show_mode(), "production");
    assert_eq!(w.output, "html/assets/js/app");
}

#[test]
fn normalize_dir_strips_drive_and_backslashes() {
    assert_eq!(normalize_dir("C:\\Users\\me\\site"), "/Users/me/site");
    assert_eq!(normalize_dir("/home/me/site"), "/home/me/site");
    assert_eq!(normalize_dir("D:/a:b"), "/a:b");
    assert_eq!(normalize_dir(""), "");
}

#[test]
fn pad_right_fills_to_width() {
    assert_eq!(pad_right("new", 6), "new   ");
    assert_eq!(pad_right("show_output", 4), "show_output");
}

#[test]
fn show_output_joins_dir_and_output() {
    let w = Webpacker::defaults();
    assert_eq!(w.show_output("C:\\work\\site"), "/work/site/html/assets/js/app");
}

#[test]
fn help_lists_every_action() {
    let lines = Webpacker::defaults().help();
    assert_eq!(lines.len(), 9);
    assert_eq!(lines[0], "new             - Create config.js to save config");
    assert_eq!(lines[8], "help            - Show this manual information");
    assert_eq!(
        lines[3],
        "show_output     - Show output result of compiled file by webpack by config on webpack.config.js"
    );
}

#[test]
fn build_renders_the_bundler_file() {
    let mut w = with_entries(&["main"]);
    w.mode = "development".to_string();
    w.output = "html/assets/js/app".to_string();
    let f = w.build("/srv/site");
    assert_eq!(f.path, "dev\\backend\\webpack.config.js");
    let expected = "var webpack = require(\"webpack\");\n\n\
const mode = 'development';\n\
const out = '/srv/site/html/assets/js/app';\n\
const entry = {\n  'main': __dirname + '/apps/main.js',\n}\n\n\
module.exports = {\n      mode: mode,\n      module: {\n        rules: [{\n          test: /\\.ejs$/,\n          use: [{\n            loader: 'ejs-webpack-loader',\n            options: { htmlmin: true },\n          }],\n        }],\n      },\n      entry: entry,\n      output: {\n        path: out,\n        filename: '[name].js',\n      },\n    };\n";
    assert_eq!(f.contents, expected);
    let entry_lines: Vec<&str> = f.contents.lines().filter(|l| l.contains("__dirname")).collect();
    assert_eq!(entry_lines, vec!["  'main': __dirname + '/apps/main.js',"]);
}

#[test]
fn build_is_deterministic_and_keeps_entry_order() {
    let w = with_entries(&["b", "a"]);
    let first = w.build("C:\\x");
    let second = w.build("C:\\x");
    assert_eq!(first.contents, second.contents);
    assert!(first.contents.contains("const out = '/x/html/assets/js/app';\n"));
    assert!(first
        .contents
        .contains("  'b': __dirname + '/apps/b.js',\n  'a': __dirname + '/apps/a.js',\n"));
}

#[test]
fn parse_selects_actions() {
    assert!(matches!(Action::parse("new", None), Ok(Action::New)));
    assert!(matches!(Action::parse("show_mode", None), Ok(Action::ShowMode)));
    assert!(matches!(Action::parse("show_output", None), Ok(Action::ShowOutput)));
    assert!(matches!(Action::parse("list_entry", None), Ok(Action::ListEntry)));
    assert!(matches!(Action::parse("build", None), Ok(Action::Build)));
    assert!(matches!(Action::parse("help", None), Ok(Action::Help)));
    match Action::parse("add_entry", Some("main".to_string())) {
        Ok(Action::AddEntry(x)) => assert_eq!(x, "main"),
        _ => panic!("expected add_entry"),
    }
    match Action::parse("set_mode", Some("production".to_string())) {
        Ok(Action::SetMode(m)) => assert_eq!(m, "production"),
        _ => panic!("expected set_mode"),
    }
    assert!(matches!(Action::parse("frobnicate", None), Ok(Action::Unknown)));
}

#[test]
fn parse_requires_item() {
    assert!(matches!(Action::parse("set_mode", None), Err(CommandError::MissingItem)));
    assert!(matches!(Action::parse("add_entry", None), Err(CommandError::MissingItem)));
    assert!(matches!(Action::parse("del_entry", None), Err(CommandError::MissingItem)));
}

#[test]
fn unknown_action_changes_nothing() {
    let mut w = with_entries(&["a"]);
    let action = match Action::parse("nope", Some("x".to_string())) {
        Ok(a) => a,
        Err(_) => panic!("unknown names parse"),
    };
    let lines = printed(w.dispatch(action, "/srv"));
    assert_eq!(
        lines,
        strings(&["Does not found action!,", "please use `help` to show list of actions command."])
    );
    assert_eq!(w.entrys, strings(&["a"]));
    assert_eq!(w.mode, "development");
}

#[test]
fn dispatch_mutating_actions_ask_to_save() {
    let mut w = Webpacker::defaults();
    assert!(matches!(w.dispatch(Action::AddEntry("a".to_string()), "/"), Effect::Save));
    assert!(matches!(w.dispatch(Action::AddEntry("b".to_string()), "/"), Effect::Save));
    assert!(matches!(w.dispatch(Action::DelEntry("a".to_string()), "/"), Effect::Save));
    assert!(matches!(w.dispatch(Action::SetMode("production".to_string()), "/"), Effect::Save));
    assert_eq!(w.entrys, strings(&["b"]));
    assert_eq!(printed(w.dispatch(Action::ShowMode, "/")), strings(&["production"]));
    assert_eq!(printed(w.dispatch(Action::ListEntry, "/")), strings(&["- b"]));
    assert_eq!(
        printed(w.dispatch(Action::ShowOutput, "E:\\p")),
        strings(&["/p/html/assets/js/app"])
    );
    match w.dispatch(Action::Build, "/p") {
        Effect::Write(f) => assert!(f.contents.contains("const mode = 'production';\n")),
        _ => panic!("expected a file"),
    }
}
