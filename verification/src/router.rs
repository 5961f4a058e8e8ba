//! Command router: from an activation identifier to exactly one effect.
//!
//! The host shell's event loop hands the router one identifier per menu
//! activation, serially.  The router resolves it through the command table
//! and performs the one corresponding effect: an emission through the
//! event sink, a get-or-create on the window registry, or nothing.  Every
//! activation is handled to completion and control returns to the caller
//! whatever the identifier was; dispatch itself can never fail.
use vstd::prelude::*;

use crate::commands::CommandTable;
use crate::commands::CommandView;
use crate::commands::Command;
use crate::commands::WindowConfig;
use crate::commands::WindowConfigView;
use crate::commands::spec_lookup;
use crate::registry::RegistryView;
use crate::registry::WindowRegistry;
use crate::registry::spec_get_or_create;
use crate::registry::spec_release;
use crate::sink::EventSink;

verus! {

/// The window work an activation leaves to the host shell: nothing, focus
/// an existing window, or construct a new one per the given configuration
/// and remember it under the given handle.
pub enum WindowAction {
    Nothing,
    Focus { handle: u64 },
    Create { name: String, handle: u64, config: WindowConfig },
}

/// Mathematical image of a [`WindowAction`].
pub enum WindowActionView {
    Nothing,
    Focus { handle: u64 },
    Create { name: Seq<char>, handle: u64, config: WindowConfigView },
}

impl View for WindowAction {
    type V = WindowActionView;

    open spec fn view(&self) -> WindowActionView {
        match self {
            WindowAction::Nothing => WindowActionView::Nothing,
            WindowAction::Focus { handle } => WindowActionView::Focus { handle: *handle },
            WindowAction::Create { name, handle, config } => WindowActionView::Create {
                name: name@,
                handle: *handle,
                config: config@,
            },
        }
    }
}

/// Mathematical image of a [`CommandRouter`]: the immutable table and the
/// mutable registry.
pub struct RouterView {
    pub table: Seq<(Seq<char>, CommandView)>,
    pub windows: RegistryView,
}

/// Consumes activation identifiers and executes the resolved command.
/// Owns the registry; the command table is fixed at construction.
pub struct CommandRouter {
    table: CommandTable,
    registry: WindowRegistry,
}

impl View for CommandRouter {
    type V = RouterView;

    closed spec fn view(&self) -> RouterView {
        RouterView { table: self.table@, windows: self.registry@ }
    }
}

impl CommandRouter {
    /// The owned registry is well formed.
    pub closed spec fn wf(&self) -> bool {
        self.registry.wf()
    }

    /// A router over the given table, with no live windows yet.
    pub fn new(table: CommandTable) -> (r: Self)
        ensures
            r.wf(),
            r@.table == table@,
            r@.windows.windows == Map::<Seq<char>, u64>::empty(),
            r@.windows.next == 0,
    {
        CommandRouter { table, registry: WindowRegistry::new() }
    }

    /// Handles one activation: resolves `id` through the table and carries
    /// out exactly the one effect of the resolved command.  `Navigate` and
    /// `SetTheme` emit their event and leave the windows alone;
    /// `ShowSingletonWindow` performs the registry's atomic get-or-create
    /// and emits nothing; `NoOp` — the resolution of every undeclared
    /// identifier — does nothing at all.  The returned action is the
    /// window work left to the host shell.
    pub fn activate(&mut self, sink: &mut EventSink, id: &str) -> (act: WindowAction)
        requires
            old(self).wf(),
            old(self)@.windows.next < u64::MAX,
        ensures
            final(self).wf(),
            final(self)@.table == old(self)@.table,
            match spec_lookup(old(self)@.table, id@) {
                CommandView::Navigate(path) => {
                    &&& final(self)@.windows == old(self)@.windows
                    &&& final(sink)@ == old(sink)@.push(("navigate"@, path))
                    &&& act@ == WindowActionView::Nothing
                },
                CommandView::SetTheme(mode) => {
                    &&& final(self)@.windows == old(self)@.windows
                    &&& final(sink)@ == old(sink)@.push(("set-theme"@, mode.spec_str()))
                    &&& act@ == WindowActionView::Nothing
                },
                CommandView::ShowSingletonWindow(wname, cfg) => {
                    &&& final(sink)@ == old(sink)@
                    &&& final(self)@.windows == spec_get_or_create(old(self)@.windows, wname).0
                    &&& act@ == (if spec_get_or_create(old(self)@.windows, wname).2 {
                        (WindowActionView::Create {
                            name: wname,
                            handle: spec_get_or_create(old(self)@.windows, wname).1,
                            config: cfg,
                        })
                    } else {
                        (WindowActionView::Focus {
                            handle: spec_get_or_create(old(self)@.windows, wname).1,
                        })
                    })
                },
                CommandView::NoOp => {
                    &&& final(self)@.windows == old(self)@.windows
                    &&& final(sink)@ == old(sink)@
                    &&& act@ == WindowActionView::Nothing
                },
            },
    {
        let cmd = self.table.resolve(id);
        match cmd {
            Command::Navigate(path) => {
                sink.emit("navigate".to_owned(), path);
                WindowAction::Nothing
            },
            Command::SetTheme(mode) => {
                sink.emit("set-theme".to_owned(), mode.as_str().to_owned());
                WindowAction::Nothing
            },
            Command::ShowSingletonWindow(name, config) => {
                let (handle, created) = self.registry.get_or_create(name.as_str());
                if created {
                    WindowAction::Create { name, handle, config }
                } else {
                    WindowAction::Focus { handle }
                }
            },
            Command::NoOp => WindowAction::Nothing,
        }
    }

    /// The host shell's window-close notification: clears the named slot,
    /// so the next activation constructs a fresh window instead of
    /// touching a dead handle.
    pub fn window_closed(&mut self, name: &str)
        requires
            old(self).wf(),
        ensures
            final(self).wf(),
            final(self)@.table == old(self)@.table,
            final(self)@.windows == spec_release(old(self)@.windows, name@),
    {
        self.registry.release(name);
    }

    /// Whether the registry can still mint a fresh handle; the guard for
    /// [`Self::activate`]'s mint-counter bound.
    pub fn can_mint(&self) -> (r: bool)
        ensures
            r == (self@.windows.next < u64::MAX),
    {
        self.registry.can_mint()
    }

    /// The number of live singleton windows.
    pub fn live_windows(&self) -> (r: usize)
        requires
            self.wf(),
        ensures
            self@.windows.windows.dom().finite(),
            r == self@.windows.windows.dom().len(),
    {
        self.registry.live_count()
    }

    /// The live handle for the named window, if that window is live.
    pub fn live_handle(&self, name: &str) -> (r: Option<u64>)
        requires
            self.wf(),
        ensures
            match r {
                Some(h) => self@.windows.windows.dom().contains(name@)
                    && self@.windows.windows[name@] == h,
                None => !self@.windows.windows.dom().contains(name@),
            },
    {
        self.registry.live_handle(name)
    }
}

} // verus!
