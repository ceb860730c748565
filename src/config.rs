//! The persisted build configuration and the operations on it.

use crate::text::{normalize_dir, normalized_dir, pad_right, padded};
use vstd::prelude::*;

verus! {

/// Name of the generated file when no configuration exists yet.
pub const DEFAULT_FILE: &'static str = "webpack.config.js";

/// Directory of the generated file when no configuration exists yet.
pub const DEFAULT_DIR: &'static str = "dev\\backend\\";

/// Build mode when no configuration exists yet.
pub const DEFAULT_MODE: &'static str = "development";

/// Output path fragment when no configuration exists yet.
pub const DEFAULT_OUTPUT: &'static str = "html/assets/js/app";

/// First line of the generated file, and the blank line after it.
pub const HEADER: &'static str = "var webpack = require(\"webpack\");\n\n";

/// Opens the entry map of the generated file.
pub const ENTRY_OPEN: &'static str = "const entry = {\n";

/// Closes the entry map of the generated file.
pub const ENTRY_CLOSE: &'static str = "}\n\n";

/// The closing block of the generated file, which exports the bundler's
/// configuration object.
pub const FOOTER: &'static str = "module.exports = {\n      mode: mode,\n      module: {\n        rules: [{\n          test: /\\.ejs$/,\n          use: [{\n            loader: 'ejs-webpack-loader',\n            options: { htmlmin: true },\n          }],\n        }],\n      },\n      entry: entry,\n      output: {\n        path: out,\n        filename: '[name].js',\n      },\n    };\n";

/// Width of the action column of the help table.
pub const HELP_WIDTH: usize = 15;

/// The configuration record: where the generated file goes, the build mode,
/// the output fragment and the entry names, in insertion order.
pub struct Webpacker {
    pub webpack_file: String,
    pub webpack_path: String,
    pub mode: String,
    pub output: String,
    pub entrys: Vec<String>,
}

/// The mathematical value of a [`Webpacker`].
pub struct ConfigView {
    pub webpack_file: Seq<char>,
    pub webpack_path: Seq<char>,
    pub mode: Seq<char>,
    pub output: Seq<char>,
    pub entrys: Seq<Seq<char>>,
}

/// The characters of each string, in order.
pub open spec fn texts(v: Seq<String>) -> Seq<Seq<char>> {
    v.map_values(|e: String| e@)
}

impl View for Webpacker {
    type V = ConfigView;

    open spec fn view(&self) -> ConfigView {
        ConfigView {
            webpack_file: self.webpack_file@,
            webpack_path: self.webpack_path@,
            mode: self.mode@,
            output: self.output@,
            entrys: texts(self.entrys@),
        }
    }
}

/// The record used when there is nothing to load.
pub open spec fn default_view() -> ConfigView {
    ConfigView {
        webpack_file: DEFAULT_FILE@,
        webpack_path: DEFAULT_DIR@,
        mode: DEFAULT_MODE@,
        output: DEFAULT_OUTPUT@,
        entrys: Seq::empty(),
    }
}

/// `v` with its entries replaced.
pub open spec fn with_entries(v: ConfigView, entrys: Seq<Seq<char>>) -> ConfigView {
    ConfigView { entrys, ..v }
}

/// `v` with its mode replaced.
pub open spec fn with_mode(v: ConfigView, mode: Seq<char>) -> ConfigView {
    ConfigView { mode, ..v }
}

/// Holds of every text but `item`.
pub open spec fn other_than(item: Seq<char>) -> spec_fn(Seq<char>) -> bool {
    |e: Seq<char>| e != item
}

/// Each entry as a listing line.
pub open spec fn listed(entrys: Seq<Seq<char>>) -> Seq<Seq<char>> {
    entrys.map_values(|e: Seq<char>| "- "@ + e)
}

/// The output directory shown for the working directory `cwd`.
pub open spec fn out_path(v: ConfigView, cwd: Seq<char>) -> Seq<char> {
    normalized_dir(cwd) + "/"@ + v.output
}

/// The line of the entry map for entry `e`.
pub open spec fn entry_line(e: Seq<char>) -> Seq<char> {
    "  '"@ + e + "': __dirname + '/apps/"@ + e + ".js',\n"@
}

/// The lines of the entry map, one per entry, in order.
pub open spec fn entry_lines(entrys: Seq<Seq<char>>) -> Seq<char>
    decreases entrys.len(),
{
    if entrys.len() == 0 {
        Seq::empty()
    } else {
        entry_lines(entrys.drop_last()) + entry_line(entrys.last())
    }
}

/// The generated file up to and including the opening of the entry map.
pub open spec fn preamble(v: ConfigView, cwd: Seq<char>) -> Seq<char> {
    HEADER@ + "const mode = '"@ + v.mode + "';\nconst out = '"@ + out_path(v, cwd) + "';\n"@
        + ENTRY_OPEN@
}

/// The whole generated file for configuration `v` in working directory `cwd`.
pub open spec fn generated_text(v: ConfigView, cwd: Seq<char>) -> Seq<char> {
    preamble(v, cwd) + entry_lines(v.entrys) + ENTRY_CLOSE@ + FOOTER@
}

/// Where the generated file goes.
pub open spec fn generated_path(v: ConfigView) -> Seq<char> {
    v.webpack_path + v.webpack_file
}

/// One row of the help table.
pub open spec fn help_line(action: Seq<char>, what: Seq<char>) -> Seq<char> {
    padded(action, HELP_WIDTH as nat) + " - "@ + what
}

/// The help table, one row per action.
pub open spec fn help_lines() -> Seq<Seq<char>> {
    seq![
        help_line("new"@, "Create config.js to save config"@),
        help_line("set_mode"@, "Set mode that will saved at webpack.config.js"@),
        help_line("show_mode"@, "Show mode that will saved at webpack.config.js"@),
        help_line(
            "show_output"@,
            "Show output result of compiled file by webpack by config on webpack.config.js"@,
        ),
        help_line(
            "list_entry"@,
            "Show file's that will compiled by webpack by config on webpack.config.js"@,
        ),
        help_line(
            "add_entry"@,
            "Add file's that will compiled by webpack by config on webpack.config.js"@,
        ),
        help_line(
            "del_entry"@,
            "Delete file's that will compiled by webpack by config on webpack.config.js"@,
        ),
        help_line("build"@, "Build file webpack.config.js"@),
        help_line("help"@, "Show this manual information"@),
    ]
}

/// A file to be written: its path and its full contents.
pub struct GeneratedFile {
    pub path: String,
    pub contents: String,
}

fn help_row(action: &str, what: &str) -> (r: String)
    ensures
        r@ == help_line(action@, what@),
{
    let mut r = pad_right(action, HELP_WIDTH);
    r.append(" - ");
    r.append(what);
    r
}

/// Deleting `item` from `entrys` leaves no entry equal to `item`, and keeps
/// every entry that differs from it.
pub proof fn lemma_delete_removes_all(entrys: Seq<Seq<char>>, item: Seq<char>)
    ensures
        !entrys.filter(other_than(item)).contains(item),
        forall|i: int|
            0 <= i < entrys.len() && entrys[i] != item ==> #[trigger] entrys.filter(
                other_than(item),
            ).contains(entrys[i]),
{
    broadcast use vstd::seq_lib::group_filter_ensures;

    let kept = entrys.filter(other_than(item));
    if kept.contains(item) {
        let k = choose|k: int| 0 <= k < kept.len() && kept[k] == item;
        assert(other_than(item)(kept[k]));
    }
    assert forall|i: int| 0 <= i < entrys.len() && entrys[i] != item implies #[trigger] kept.contains(
        entrys[i],
    ) by {
        assert(other_than(item)(entrys[i]));
    }
}

/// Why a stored configuration could not be loaded.
pub enum LoadError {
    /// The stored text is not empty and does not decode to a configuration.
    Corrupt,
}

impl Webpacker {
    /// The configuration used when none has been stored.
    pub fn defaults() -> (r: Webpacker)
        ensures
            r@ == default_view(),
    {
        let r = Webpacker {
            webpack_file: String::from_str(DEFAULT_FILE),
            webpack_path: String::from_str(DEFAULT_DIR),
            mode: String::from_str(DEFAULT_MODE),
            output: String::from_str(DEFAULT_OUTPUT),
            entrys: Vec::new(),
        };
        assert(r@.entrys =~= Seq::<Seq<char>>::empty());
        r
    }

    /// Decides the configuration from the stored text and what decoding it
    /// gave: an empty store yields the defaults, a decoded record is taken as
    /// it is, and anything else is corrupt (it is never replaced silently).
    pub fn new(contents: &str, decoded: Option<Webpacker>) -> (r: Result<Webpacker, LoadError>)
        ensures
            contents@.len() == 0 ==> (r matches Ok(c) && c@ == default_view()),
            contents@.len() > 0 ==> match decoded {
                Some(c) => (r matches Ok(d) && d == c),
                None => r is Err,
            },
    {
        if contents.unicode_len() == 0 {
            return Ok(Webpacker::defaults());
        }
        match decoded {
            Some(c) => Ok(c),
            None => Err(LoadError::Corrupt),
        }
    }

    /// Appends `item` to the entries; duplicates are kept.
    pub fn add_entry(&mut self, item: &str)
        ensures
            final(self)@ == with_entries(old(self)@, old(self)@.entrys.push(item@)),
    {
        self.entrys.push(String::from_str(item));
        assert(texts(self.entrys@) =~= texts(old(self).entrys@).push(item@));
    }

    /// Removes every entry equal to `item`, keeping the order of the rest.
    pub fn del_entry(&mut self, item: &str)
        ensures
            final(self)@ == with_entries(
                old(self)@,
                old(self)@.entrys.filter(other_than(item@)),
            ),
    {
        let target = String::from_str(item);
        let ghost all = texts(self.entrys@);
        let mut kept: Vec<String> = Vec::new();
        let n = self.entrys.len();
        let mut i: usize = 0;
        while i < n
            invariant
                n == self.entrys@.len(),
                all == texts(self.entrys@),
                target@ == item@,
                i <= n,
                texts(kept@) == all.subrange(0, i as int).filter(other_than(item@)),
            decreases n - i,
        {
            let ghost before = kept@;
            let ghost head = all.subrange(0, i + 1);
            assert(head.drop_last() =~= all.subrange(0, i as int));
            assert(head.last() == all[i as int]);
            assert(all[i as int] == self.entrys@[i as int]@);
            reveal(Seq::filter);
            if !self.entrys[i].eq(&target) {
                kept.push(self.entrys[i].clone());
                assert(texts(kept@) =~= texts(before).push(all[i as int]));
            }
            assert(texts(kept@) == head.filter(other_than(item@)));
            i = i + 1;
        }
        assert(all.subrange(0, n as int) =~= all);
        self.entrys = kept;
    }

    /// Replaces the mode.
    pub fn set_mode(&mut self, mode: &str)
        ensures
            final(self)@ == with_mode(old(self)@, mode@),
    {
        self.mode = String::from_str(mode);
    }

    /// The current mode.
    pub fn show_mode(&self) -> (r: String)
        ensures
            r@ == self@.mode,
    {
        self.mode.clone()
    }

    /// One line `- <entry>` per entry, in stored order.
    pub fn list_entries(&self) -> (r: Vec<String>)
        ensures
            texts(r@) == listed(self@.entrys),
    {
        let mut r: Vec<String> = Vec::new();
        let n = self.entrys.len();
        let mut i: usize = 0;
        while i < n
            invariant
                n == self.entrys@.len(),
                i <= n,
                texts(r@) == listed(self@.entrys).subrange(0, i as int),
            decreases n - i,
        {
            let mut line = String::from_str("- ");
            line.append(self.entrys[i].as_str());
            assert(self@.entrys[i as int] == self.entrys@[i as int]@);
            assert(line@ == listed(self@.entrys)[i as int]);
            let ghost before = r@;
            r.push(line);
            assert(texts(r@) =~= texts(before).push(line@));
            assert(texts(r@) =~= listed(self@.entrys).subrange(0, i + 1));
            i = i + 1;
        }
        assert(listed(self@.entrys).subrange(0, n as int) =~= listed(self@.entrys));
        r
    }

    /// The output directory: the normalised working directory `cwd`, a slash,
    /// and the configured output fragment.
    pub fn show_output(&self, cwd: &str) -> (r: String)
        ensures
            r@ == out_path(self@, cwd@),
    {
        let mut r = normalize_dir(cwd);
        r.append("/");
        r.append(self.output.as_str());
        r
    }

    /// The help table, one line per action.
    pub fn help(&self) -> (r: Vec<String>)
        ensures
            texts(r@) == help_lines(),
    {
        let mut r: Vec<String> = Vec::new();
        r.push(help_row("new", "Create config.js to save config"));
        r.push(help_row("set_mode", "Set mode that will saved at webpack.config.js"));
        r.push(help_row("show_mode", "Show mode that will saved at webpack.config.js"));
        r.push(
            help_row(
                "show_output",
                "Show output result of compiled file by webpack by config on webpack.config.js",
            ),
        );
        r.push(
            help_row(
                "list_entry",
                "Show file's that will compiled by webpack by config on webpack.config.js",
            ),
        );
        r.push(
            help_row(
                "add_entry",
                "Add file's that will compiled by webpack by config on webpack.config.js",
            ),
        );
        r.push(
            help_row(
                "del_entry",
                "Delete file's that will compiled by webpack by config on webpack.config.js",
            ),
        );
        r.push(help_row("build", "Build file webpack.config.js"));
        r.push(help_row("help", "Show this manual information"));
        assert(texts(r@) =~= help_lines());
        r
    }

    /// The bundler configuration file for working directory `cwd`: its path
    /// (directory then file name) and its text. Entry names are written
    /// verbatim, without escaping.
    pub fn build(&self, cwd: &str) -> (r: GeneratedFile)
        ensures
            r.path@ == generated_path(self@),
            r.contents@ == generated_text(self@, cwd@),
    {
        let mut path = self.webpack_path.clone();
        path.append(self.webpack_file.as_str());
        let out = self.show_output(cwd);
        let mut text = String::from_str(HEADER);
        text.append("const mode = '");
        text.append(self.mode.as_str());
        text.append("';\nconst out = '");
        text.append(out.as_str());
        text.append("';\n");
        text.append(ENTRY_OPEN);
        let ghost pre = text@;
        assert(pre == preamble(self@, cwd@));
        let n = self.entrys.len();
        let mut i: usize = 0;
        while i < n
            invariant
                n == self.entrys@.len(),
                i <= n,
                text@ == pre + entry_lines(self@.entrys.subrange(0, i as int)),
            decreases n - i,
        {
            let e = self.entrys[i].as_str();
            let mut line = String::from_str("  '");
            line.append(e);
            line.append("': __dirname + '/apps/");
            line.append(e);
            line.append(".js',\n");
            let ghost sub = self@.entrys.subrange(0, i as int);
            let ghost next = self@.entrys.subrange(0, i + 1);
            assert(next.drop_last() =~= sub);
            assert(next.last() == e@);
            text.append(line.as_str());
            assert(text@ =~= pre + entry_lines(next));
            i = i + 1;
        }
        assert(self@.entrys.subrange(0, n as int) =~= self@.entrys);
        text.append(ENTRY_CLOSE);
        text.append(FOOTER);
        GeneratedFile { path, contents: text }
    }
}

} // verus!
