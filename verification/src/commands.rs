//! Typed commands and the closed identifier-to-command table.
//!
//! A `Command` is the typed effect a menu activation resolves to.  The
//! `CommandTable` is built once at startup from an explicit enumerated
//! mapping and is immutable afterwards; looking up an identifier that is
//! absent from the table yields `Command::NoOp`, so dispatch is total over
//! all identifier strings and can never fail on a stale identifier.
use vstd::prelude::*;

verus! {

/// Theme selection carried by `Command::SetTheme`.
#[derive(Clone, Copy, PartialEq, Eq, Structural, Debug)]
pub enum ThemeMode {
    Light,
    Dark,
    System,
}

impl ThemeMode {
    /// The wire payload for this mode: one of `"light"`, `"dark"`, `"system"`.
    pub open spec fn spec_str(self) -> Seq<char> {
        match self {
            ThemeMode::Light => "light"@,
            ThemeMode::Dark => "dark"@,
            ThemeMode::System => "system"@,
        }
    }

    /// Executable counterpart of [`Self::spec_str`].
    pub fn as_str(&self) -> (r: &'static str)
        ensures
            r@ == self.spec_str(),
    {
        match self {
            ThemeMode::Light => "light",
            ThemeMode::Dark => "dark",
            ThemeMode::System => "system",
        }
    }
}

/// Geometry and chrome for a singleton window.  A pure value: two configs
/// with the same fields are interchangeable.  Sizes are logical pixels.
pub struct WindowConfig {
    pub width: u32,
    pub height: u32,
    pub resizable: bool,
    pub minimizable: bool,
    pub maximizable: bool,
    pub centered: bool,
    pub title: String,
    /// URI or path identifying what the window displays.
    pub content: String,
}

/// Mathematical image of a [`WindowConfig`]: strings become `Seq<char>`.
pub struct WindowConfigView {
    pub width: u32,
    pub height: u32,
    pub resizable: bool,
    pub minimizable: bool,
    pub maximizable: bool,
    pub centered: bool,
    pub title: Seq<char>,
    pub content: Seq<char>,
}

impl View for WindowConfig {
    type V = WindowConfigView;

    open spec fn view(&self) -> WindowConfigView {
        WindowConfigView {
            width: self.width,
            height: self.height,
            resizable: self.resizable,
            minimizable: self.minimizable,
            maximizable: self.maximizable,
            centered: self.centered,
            title: self.title@,
            content: self.content@,
        }
    }
}

impl Clone for WindowConfig {
    fn clone(&self) -> (r: Self)
        ensures
            r@ == self@,
    {
        WindowConfig {
            width: self.width,
            height: self.height,
            resizable: self.resizable,
            minimizable: self.minimizable,
            maximizable: self.maximizable,
            centered: self.centered,
            title: self.title.clone(),
            content: self.content.clone(),
        }
    }
}

/// The closed set of effects an activation can resolve to.
pub enum Command {
    /// Emit a navigation event carrying this path.
    Navigate(String),
    /// Emit a theme-change event carrying the mode's payload.
    SetTheme(ThemeMode),
    /// Show (create or focus) the named singleton window.
    ShowSingletonWindow(String, WindowConfig),
    /// No effect; the resolution of every undeclared identifier.
    NoOp,
}

/// Mathematical image of a [`Command`].
pub enum CommandView {
    Navigate(Seq<char>),
    SetTheme(ThemeMode),
    ShowSingletonWindow(Seq<char>, WindowConfigView),
    NoOp,
}

impl View for Command {
    type V = CommandView;

    open spec fn view(&self) -> CommandView {
        match self {
            Command::Navigate(path) => CommandView::Navigate(path@),
            Command::SetTheme(mode) => CommandView::SetTheme(*mode),
            Command::ShowSingletonWindow(name, config) => CommandView::ShowSingletonWindow(
                name@,
                config@,
            ),
            Command::NoOp => CommandView::NoOp,
        }
    }
}

impl Clone for Command {
    fn clone(&self) -> (r: Self)
        ensures
            r@ == self@,
    {
        match self {
            Command::Navigate(path) => Command::Navigate(path.clone()),
            Command::SetTheme(mode) => Command::SetTheme(*mode),
            Command::ShowSingletonWindow(name, config) => Command::ShowSingletonWindow(
                name.clone(),
                config.clone(),
            ),
            Command::NoOp => Command::NoOp,
        }
    }
}

/// Resolution over a sequence of table entries: the command of the first
/// entry whose identifier matches, `NoOp` when none does.
pub open spec fn spec_lookup(entries: Seq<(Seq<char>, CommandView)>, id: Seq<char>) -> CommandView
    decreases entries.len(),
{
    if entries.len() == 0 {
        CommandView::NoOp
    } else if entries[0].0 == id {
        entries[0].1
    } else {
        spec_lookup(entries.drop_first(), id)
    }
}

/// Law: an identifier that no entry declares resolves to `NoOp`.
pub proof fn lemma_lookup_absent(entries: Seq<(Seq<char>, CommandView)>, id: Seq<char>)
    requires
        forall|i: int| 0 <= i < entries.len() ==> entries[i].0 != id,
    ensures
        spec_lookup(entries, id) == CommandView::NoOp,
    decreases entries.len(),
{
    if entries.len() > 0 {
        lemma_lookup_absent(entries.drop_first(), id);
    }
}

/// Law: a declared identifier resolves to the command of its first entry.
pub proof fn lemma_lookup_found(entries: Seq<(Seq<char>, CommandView)>, id: Seq<char>, k: int)
    requires
        0 <= k < entries.len(),
        entries[k].0 == id,
        forall|j: int| 0 <= j < k ==> entries[j].0 != id,
    ensures
        spec_lookup(entries, id) == entries[k].1,
    decreases k,
{
    if k > 0 {
        lemma_lookup_found(entries.drop_first(), id, k - 1);
    }
}

/// Law: resolution is closed over the table — it yields either `NoOp` or
/// the command of an entry that declares exactly the looked-up
/// identifier; nothing else can come out of a lookup.
pub proof fn lemma_lookup_closed(entries: Seq<(Seq<char>, CommandView)>, id: Seq<char>)
    ensures
        spec_lookup(entries, id) == CommandView::NoOp || exists|k: int|
            0 <= k < entries.len() && (#[trigger] entries[k]).0 == id && entries[k].1
                == spec_lookup(entries, id),
    decreases entries.len(),
{
    if entries.len() > 0 {
        if entries[0].0 == id {
        } else {
            lemma_lookup_closed(entries.drop_first(), id);
            if spec_lookup(entries, id) != CommandView::NoOp {
                let k = choose|k: int|
                    0 <= k < entries.drop_first().len() && (#[trigger] entries.drop_first()[
                        k
                    ]).0 == id && entries.drop_first()[k].1 == spec_lookup(
                        entries.drop_first(),
                        id,
                    );
                assert(entries[k + 1] == entries.drop_first()[k]);
            }
        }
    }
}

/// Total, closed mapping from identifier to [`Command`], built once at
/// startup from an explicit enumerated mapping and immutable afterwards.
pub struct CommandTable {
    entries: Vec<(String, Command)>,
}

impl View for CommandTable {
    type V = Seq<(Seq<char>, CommandView)>;

    closed spec fn view(&self) -> Seq<(Seq<char>, CommandView)> {
        self.entries@.map_values(|p: (String, Command)| (p.0@, p.1@))
    }
}

impl CommandTable {
    /// Builds the table from an enumerated identifier-to-command mapping.
    /// When one identifier is declared twice, the earlier entry wins.
    pub fn new(entries: Vec<(String, Command)>) -> (t: Self)
        ensures
            t@ == entries@.map_values(|p: (String, Command)| (p.0@, p.1@)),
    {
        CommandTable { entries }
    }

    /// Resolves an identifier to its command; `NoOp` for identifiers the
    /// table does not declare.  Total over all strings and side-effect free.
    pub fn resolve(&self, id: &str) -> (cmd: Command)
        ensures
            cmd@ == spec_lookup(self@, id@),
    {
        let id_owned: String = id.to_owned();
        let n: usize = self.entries.len();
        let mut i: usize = 0;
        proof {
            assert(self@.skip(0) =~= self@);
        }
        while i < n
            invariant
                n == self.entries.len(),
                0 <= i <= n,
                id_owned@ == id@,
                spec_lookup(self@, id@) == spec_lookup(self@.skip(i as int), id@),
            decreases n - i,
        {
            if self.entries[i].0 == id_owned {
                proof {
                    assert(self@[i as int] == (self.entries@[i as int].0@, self.entries@[
                        i as int
                    ].1@));
                    assert(self@.skip(i as int)[0] == self@[i as int]);
                }
                return self.entries[i].1.clone();
            }
            proof {
                assert(self@[i as int] == (self.entries@[i as int].0@, self.entries@[
                    i as int
                ].1@));
                assert(self@.skip(i as int)[0] == self@[i as int]);
                assert(self@.skip(i as int).drop_first() =~= self@.skip(i + 1));
            }
            i += 1;
        }
        Command::NoOp
    }
}

/// Configuration of the singleton "about" window: 550 by 850 logical
/// pixels, not resizable, not minimizable, not maximizable, centered.
pub open spec fn spec_about_config() -> WindowConfigView {
    WindowConfigView {
        width: 550,
        height: 850,
        resizable: false,
        minimizable: false,
        maximizable: false,
        centered: true,
        title: "About Tauri App Boilerplate"@,
        content: "/about"@,
    }
}

/// Executable counterpart of [`spec_about_config`].
pub fn about_window_config() -> (c: WindowConfig)
    ensures
        c@ == spec_about_config(),
{
    WindowConfig {
        width: 550,
        height: 850,
        resizable: false,
        minimizable: false,
        maximizable: false,
        centered: true,
        title: "About Tauri App Boilerplate".to_owned(),
        content: "/about".to_owned(),
    }
}

/// The application's closed identifier-to-effect table: every custom menu
/// identifier with the command its activation triggers.
pub open spec fn application_entries() -> Seq<(Seq<char>, CommandView)> {
    seq![
        ("about"@, CommandView::ShowSingletonWindow("about"@, spec_about_config())),
        ("home"@, CommandView::Navigate("/"@)),
        ("clipboard"@, CommandView::Navigate("/clipboard"@)),
        ("dialog"@, CommandView::Navigate("/dialog"@)),
        ("filesystem"@, CommandView::Navigate("/filesystem"@)),
        ("notifications"@, CommandView::Navigate("/notifications"@)),
        ("os-info"@, CommandView::Navigate("/os-info"@)),
        ("theme-light"@, CommandView::SetTheme(ThemeMode::Light)),
        ("theme-dark"@, CommandView::SetTheme(ThemeMode::Dark)),
        ("theme-system"@, CommandView::SetTheme(ThemeMode::System)),
    ]
}

/// Builds the application's [`CommandTable`], the executable image of
/// [`application_entries`].
pub fn application_table() -> (t: CommandTable)
    ensures
        t@ == application_entries(),
{
    let mut entries: Vec<(String, Command)> = Vec::new();
    entries.push(
        (
            "about".to_owned(),
            Command::ShowSingletonWindow("about".to_owned(), about_window_config()),
        ),
    );
    entries.push(("home".to_owned(), Command::Navigate("/".to_owned())));
    entries.push(("clipboard".to_owned(), Command::Navigate("/clipboard".to_owned())));
    entries.push(("dialog".to_owned(), Command::Navigate("/dialog".to_owned())));
    entries.push(("filesystem".to_owned(), Command::Navigate("/filesystem".to_owned())));
    entries.push(("notifications".to_owned(), Command::Navigate("/notifications".to_owned())));
    entries.push(("os-info".to_owned(), Command::Navigate("/os-info".to_owned())));
    entries.push(("theme-light".to_owned(), Command::SetTheme(ThemeMode::Light)));
    entries.push(("theme-dark".to_owned(), Command::SetTheme(ThemeMode::Dark)));
    entries.push(("theme-system".to_owned(), Command::SetTheme(ThemeMode::System)));
    let t = CommandTable::new(entries);
    proof {
        assert(t@ =~= application_entries());
    }
    t
}

/// Law: every identifier the application declares resolves to exactly the
/// command its entry lists; no declared identifier falls through to `NoOp`.
pub proof fn lemma_application_table_resolution()
    ensures
        spec_lookup(application_entries(), "about"@) == CommandView::ShowSingletonWindow(
            "about"@,
            spec_about_config(),
        ),
        spec_lookup(application_entries(), "home"@) == CommandView::Navigate("/"@),
        spec_lookup(application_entries(), "clipboard"@) == CommandView::Navigate("/clipboard"@),
        spec_lookup(application_entries(), "dialog"@) == CommandView::Navigate("/dialog"@),
        spec_lookup(application_entries(), "filesystem"@) == CommandView::Navigate("/filesystem"@),
        spec_lookup(application_entries(), "notifications"@) == CommandView::Navigate(
            "/notifications"@,
        ),
        spec_lookup(application_entries(), "os-info"@) == CommandView::Navigate("/os-info"@),
        spec_lookup(application_entries(), "theme-light"@) == CommandView::SetTheme(
            ThemeMode::Light,
        ),
        spec_lookup(application_entries(), "theme-dark"@) == CommandView::SetTheme(ThemeMode::Dark),
        spec_lookup(application_entries(), "theme-system"@) == CommandView::SetTheme(
            ThemeMode::System,
        ),
{
    reveal_strlit("about");
    reveal_strlit("home");
    reveal_strlit("clipboard");
    reveal_strlit("dialog");
    reveal_strlit("filesystem");
    reveal_strlit("notifications");
    reveal_strlit("os-info");
    reveal_strlit("theme-light");
    reveal_strlit("theme-dark");
    reveal_strlit("theme-system");
    let entries = application_entries();
    assert(entries[0].0 == "about"@);
    assert(entries[1].0 == "home"@);
    assert(entries[2].0 == "clipboard"@);
    assert(entries[3].0 == "dialog"@);
    assert(entries[4].0 == "filesystem"@);
    assert(entries[5].0 == "notifications"@);
    assert(entries[6].0 == "os-info"@);
    assert(entries[7].0 == "theme-light"@);
    assert(entries[8].0 == "theme-dark"@);
    assert(entries[9].0 == "theme-system"@);
    assert("about"@.len() == 5);
    assert("home"@.len() == 4);
    assert("clipboard"@.len() == 9);
    assert("dialog"@.len() == 6);
    assert("filesystem"@.len() == 10);
    assert("notifications"@.len() == 13);
    assert("os-info"@.len() == 7);
    assert("theme-light"@.len() == 11);
    assert("theme-dark"@.len() == 10);
    assert("theme-system"@.len() == 12);
    assert("filesystem"@[0] == 'f' && "theme-dark"@[0] == 't');
    lemma_lookup_found(entries, "about"@, 0);
    lemma_lookup_found(entries, "home"@, 1);
    lemma_lookup_found(entries, "clipboard"@, 2);
    lemma_lookup_found(entries, "dialog"@, 3);
    lemma_lookup_found(entries, "filesystem"@, 4);
    lemma_lookup_found(entries, "notifications"@, 5);
    lemma_lookup_found(entries, "os-info"@, 6);
    lemma_lookup_found(entries, "theme-light"@, 7);
    lemma_lookup_found(entries, "theme-dark"@, 8);
    lemma_lookup_found(entries, "theme-system"@, 9);
}

} // verus!
