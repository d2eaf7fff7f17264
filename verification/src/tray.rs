//! The tray menu: its commands and the feedback they give on the wallpaper
//! on screen.

use vstd::prelude::*;
use crate::config::{Config, ConfigView, CurrentWallpaper, SourceView, texts_view};
use crate::text::text_eq;

verus! {

/// A command of the tray menu.
#[derive(Clone, Copy, Debug, PartialEq, Eq, Structural)]
pub enum MenuCommand {
    Quit,
    Show,
    Next,
    More,
    Less,
    Never,
    Other,
}

/// The command that a menu item's id names.
pub open spec fn command_of(id: Seq<char>) -> MenuCommand {
    if id == "quit"@ {
        MenuCommand::Quit
    } else if id == "show"@ {
        MenuCommand::Show
    } else if id == "next"@ {
        MenuCommand::Next
    } else if id == "more"@ {
        MenuCommand::More
    } else if id == "less"@ {
        MenuCommand::Less
    } else if id == "never"@ {
        MenuCommand::Never
    } else {
        MenuCommand::Other
    }
}

/// Reads a menu item's id.
pub fn menu_command(id: &str) -> (c: MenuCommand)
    ensures
        c == command_of(id@),
        c == MenuCommand::Quit <==> id@ == "quit"@,
        c == MenuCommand::Show <==> id@ == "show"@,
        c == MenuCommand::Next <==> id@ == "next"@,
        c == MenuCommand::More <==> id@ == "more"@,
        c == MenuCommand::Less <==> id@ == "less"@,
        c == MenuCommand::Never <==> id@ == "never"@,
{
    proof {
        reveal_strlit("quit");
        reveal_strlit("show");
        reveal_strlit("next");
        reveal_strlit("more");
        reveal_strlit("less");
        reveal_strlit("never");
        assert("quit"@ != "show"@) by { assert("quit"@[0] != "show"@[0]); }
        assert("quit"@ != "next"@) by { assert("quit"@[0] != "next"@[0]); }
        assert("quit"@ != "more"@) by { assert("quit"@[0] != "more"@[0]); }
        assert("quit"@ != "less"@) by { assert("quit"@[0] != "less"@[0]); }
        assert("quit"@ != "never"@) by { assert("quit"@[0] != "never"@[0]); }
        assert("show"@ != "next"@) by { assert("show"@[0] != "next"@[0]); }
        assert("show"@ != "more"@) by { assert("show"@[0] != "more"@[0]); }
        assert("show"@ != "less"@) by { assert("show"@[0] != "less"@[0]); }
        assert("show"@ != "never"@) by { assert("show"@[0] != "never"@[0]); }
        assert("next"@ != "more"@) by { assert("next"@[0] != "more"@[0]); }
        assert("next"@ != "less"@) by { assert("next"@[0] != "less"@[0]); }
        assert("next"@ != "never"@) by { assert("next"@[2] != "never"@[2]); }
        assert("more"@ != "less"@) by { assert("more"@[0] != "less"@[0]); }
        assert("more"@ != "never"@) by { assert("more"@[0] != "never"@[0]); }
        assert("less"@ != "never"@) by { assert("less"@[0] != "never"@[0]); }
    }
    if text_eq(id, "quit") {
        MenuCommand::Quit
    } else if text_eq(id, "show") {
        MenuCommand::Show
    } else if text_eq(id, "next") {
        MenuCommand::Next
    } else if text_eq(id, "more") {
        MenuCommand::More
    } else if text_eq(id, "less") {
        MenuCommand::Less
    } else if text_eq(id, "never") {
        MenuCommand::Never
    } else {
        MenuCommand::Other
    }
}

/// The weight after "show less of this": one less, but at least one.
pub open spec fn lowered(weight: u32) -> u32 {
    if weight - 1 < 1 {
        1
    } else {
        (weight - 1) as u32
    }
}

/// The settings with the weight of the source at `index` replaced.
pub open spec fn with_weight(c: ConfigView, index: int, weight: u32) -> ConfigView {
    ConfigView {
        sources: c.sources.update(index, SourceView { weight, ..c.sources[index] }),
        ..c
    }
}

impl Config {
    /// "Show more of this": raises the weight of the source at `index` by one.
    /// Returns whether there is such a source.
    pub fn increase_weight(&mut self, index: usize) -> (changed: bool)
        requires
            index < old(self).sources@.len() ==> old(self).sources@[index as int].weight
                < u32::MAX,
        ensures
            changed == (index < old(self).sources@.len()),
            changed ==> final(self)@ == with_weight(
                old(self)@,
                index as int,
                (old(self).sources@[index as int].weight + 1) as u32,
            ),
            !changed ==> final(self)@ == old(self)@,
            changed ==> (final(self)@.sources.len() == old(self)@.sources.len() && final(self)@.sources[index as int].weight == old(self)@.sources[index as int].weight + 1
                && final(self)@.sources[index as int].enabled == old(self)@.sources[index as int].enabled && final(self)@.sources[index as int].query
                == old(self)@.sources[index as int].query && final(self)@.sources[index as int].kind == old(self)@.sources[index as int].kind
                && (forall|j: int| 0 <= j < old(self)@.sources.len() && j != index as int ==> #[trigger] final(self)@.sources[j]
                == old(self)@.sources[j]) && final(self)@.blacklist == old(self)@.blacklist && final(self)@.unsplash_api_key == old(self)@.unsplash_api_key && final(self)@.delay == old(self)@.delay
                && final(self)@.theme_color == old(self)@.theme_color && final(self)@.minimize_to_tray == old(self)@.minimize_to_tray
                && final(self)@.run_on_startup == old(self)@.run_on_startup),
    {
        if index < self.sources.len() {
            let w = self.sources[index].weight;
            self.sources[index].weight = w + 1;
            proof {
                assert(final(self)@.sources =~= with_weight(old(self)@, index as int, (w + 1) as u32).sources);
            }
            true
        } else {
            false
        }
    }

    /// "Show less of this": lowers the weight of the source at `index` by one,
    /// but not below one. Returns whether there is such a source.
    pub fn decrease_weight(&mut self, index: usize) -> (changed: bool)
        requires
            index < old(self).sources@.len() ==> old(self).sources@[index as int].weight >= 1,
        ensures
            changed == (index < old(self).sources@.len()),
            changed ==> final(self)@ == with_weight(
                old(self)@,
                index as int,
                lowered(old(self).sources@[index as int].weight),
            ),
            !changed ==> final(self)@ == old(self)@,
            changed ==> (final(self)@.sources.len() == old(self)@.sources.len() && final(self)@.sources[index as int].weight == (if old(self)@.sources[index as int].weight <= 1 { 1int } else { old(self)@.sources[index as int].weight - 1 })
                && final(self)@.sources[index as int].enabled == old(self)@.sources[index as int].enabled && final(self)@.sources[index as int].query
                == old(self)@.sources[index as int].query && final(self)@.sources[index as int].kind == old(self)@.sources[index as int].kind
                && (forall|j: int| 0 <= j < old(self)@.sources.len() && j != index as int ==> #[trigger] final(self)@.sources[j]
                == old(self)@.sources[j]) && final(self)@.blacklist == old(self)@.blacklist && final(self)@.unsplash_api_key == old(self)@.unsplash_api_key && final(self)@.delay == old(self)@.delay
                && final(self)@.theme_color == old(self)@.theme_color && final(self)@.minimize_to_tray == old(self)@.minimize_to_tray
                && final(self)@.run_on_startup == old(self)@.run_on_startup),
    {
        if index < self.sources.len() {
            let w = self.sources[index].weight;
            let lower: u32 = w - 1;
            let new_weight: u32 = if lower < 1 { 1 } else { lower };
            self.sources[index].weight = new_weight;
            proof {
                assert(final(self)@.sources =~= with_weight(old(self)@, index as int, lowered(w)).sources);
            }
            true
        } else {
            false
        }
    }

    /// "Never show this wallpaper again": appends `url` to the blacklist.
    pub fn add_to_blacklist(&mut self, url: String)
        ensures
            final(self)@ == (ConfigView { blacklist: old(self)@.blacklist.push(url@), ..old(self)@ }),
            final(self)@.blacklist.len() == old(self)@.blacklist.len() + 1,
            final(self)@.blacklist[old(self)@.blacklist.len() as int] == url@,
            forall|j: int| 0 <= j < old(self)@.blacklist.len() ==> #[trigger] final(self)@.blacklist[j] == old(self)@.blacklist[j],
            final(self)@.sources == old(self)@.sources,
            final(self)@.unsplash_api_key == old(self)@.unsplash_api_key && final(self)@.delay == old(self)@.delay
                && final(self)@.theme_color == old(self)@.theme_color && final(self)@.minimize_to_tray == old(self)@.minimize_to_tray
                && final(self)@.run_on_startup == old(self)@.run_on_startup,
    {
        let ghost u = url@;
        self.blacklist.push(url);
        proof {
            assert(texts_view(final(self).blacklist@) =~= texts_view(old(self).blacklist@).push(u));
        }
    }
}

/// What the service must do after a feedback command.
#[derive(Clone, Copy, Debug, PartialEq, Eq, Structural)]
pub enum Feedback {
    /// Nothing changed.
    Unchanged,
    /// The settings changed: store them.
    Save,
    /// The settings changed: store them and, once stored, show the next wallpaper.
    SaveThenNext,
}

/// Whether a feedback command may be applied without overflow.
pub open spec fn feedback_allowed(c: ConfigView, current: Option<CurrentWallpaper>, command: MenuCommand) -> bool {
    match current {
        Some(cur) => cur.source_index < c.sources.len() ==> match command {
            MenuCommand::More => c.sources[cur.source_index as int].weight < u32::MAX,
            MenuCommand::Less => c.sources[cur.source_index as int].weight >= 1,
            _ => true,
        },
        None => true,
    }
}

/// The settings and the answer after a feedback command on the wallpaper on
/// screen.
pub open spec fn feedback_result(c: ConfigView, current: Option<CurrentWallpaper>, command: MenuCommand) -> (ConfigView, Feedback) {
    match current {
        None => (c, Feedback::Unchanged),
        Some(cur) => {
            let i = cur.source_index as int;
            match command {
                MenuCommand::More => if i < c.sources.len() {
                    (with_weight(c, i, (c.sources[i].weight + 1) as u32), Feedback::Save)
                } else {
                    (c, Feedback::Unchanged)
                },
                MenuCommand::Less => if i < c.sources.len() {
                    (with_weight(c, i, lowered(c.sources[i].weight)), Feedback::Save)
                } else {
                    (c, Feedback::Unchanged)
                },
                MenuCommand::Never => (
                    ConfigView { blacklist: c.blacklist.push(cur.url@), ..c },
                    Feedback::SaveThenNext,
                ),
                _ => (c, Feedback::Unchanged),
            }
        },
    }
}

/// Applies "more", "less" or "never" to the wallpaper on screen; any other
/// command, or no wallpaper yet, changes nothing.
pub fn apply_feedback(config: &mut Config, current: &Option<CurrentWallpaper>, command: MenuCommand) -> (r: Feedback)
    requires
        feedback_allowed(old(config)@, *current, command),
    ensures
        (final(config)@, r) == feedback_result(old(config)@, *current, command),
        current is None ==> final(config)@ == old(config)@ && r == Feedback::Unchanged,
        current matches Some(cur) ==> match command {
            MenuCommand::More => if cur.source_index < old(config)@.sources.len() {
                r == Feedback::Save && final(config)@.sources.len() == old(config)@.sources.len() && final(config)@.sources[cur.source_index as int].weight == old(config)@.sources[cur.source_index as int].weight + 1
                && final(config)@.sources[cur.source_index as int].enabled == old(config)@.sources[cur.source_index as int].enabled && final(config)@.sources[cur.source_index as int].query
                == old(config)@.sources[cur.source_index as int].query && final(config)@.sources[cur.source_index as int].kind == old(config)@.sources[cur.source_index as int].kind
                && (forall|j: int| 0 <= j < old(config)@.sources.len() && j != cur.source_index as int ==> #[trigger] final(config)@.sources[j]
                == old(config)@.sources[j]) && final(config)@.blacklist == old(config)@.blacklist && final(config)@.unsplash_api_key == old(config)@.unsplash_api_key && final(config)@.delay == old(config)@.delay
                && final(config)@.theme_color == old(config)@.theme_color && final(config)@.minimize_to_tray == old(config)@.minimize_to_tray
                && final(config)@.run_on_startup == old(config)@.run_on_startup
            } else {
                final(config)@ == old(config)@ && r == Feedback::Unchanged
            },
            MenuCommand::Less => if cur.source_index < old(config)@.sources.len() {
                r == Feedback::Save && final(config)@.sources.len() == old(config)@.sources.len() && final(config)@.sources[cur.source_index as int].weight == (if old(config)@.sources[cur.source_index as int].weight <= 1 { 1int } else { old(config)@.sources[cur.source_index as int].weight - 1 })
                && final(config)@.sources[cur.source_index as int].enabled == old(config)@.sources[cur.source_index as int].enabled && final(config)@.sources[cur.source_index as int].query
                == old(config)@.sources[cur.source_index as int].query && final(config)@.sources[cur.source_index as int].kind == old(config)@.sources[cur.source_index as int].kind
                && (forall|j: int| 0 <= j < old(config)@.sources.len() && j != cur.source_index as int ==> #[trigger] final(config)@.sources[j]
                == old(config)@.sources[j]) && final(config)@.blacklist == old(config)@.blacklist && final(config)@.unsplash_api_key == old(config)@.unsplash_api_key && final(config)@.delay == old(config)@.delay
                && final(config)@.theme_color == old(config)@.theme_color && final(config)@.minimize_to_tray == old(config)@.minimize_to_tray
                && final(config)@.run_on_startup == old(config)@.run_on_startup
            } else {
                final(config)@ == old(config)@ && r == Feedback::Unchanged
            },
            MenuCommand::Never => r == Feedback::SaveThenNext && final(config)@.blacklist.len()
                == old(config)@.blacklist.len() + 1 && final(config)@.blacklist[old(config)@.blacklist.len() as int] == cur.url@
                && (forall|j: int| 0 <= j < old(config)@.blacklist.len() ==> #[trigger] final(config)@.blacklist[j]
                == old(config)@.blacklist[j]) && final(config)@.sources == old(config)@.sources && final(config)@.unsplash_api_key == old(config)@.unsplash_api_key && final(config)@.delay == old(config)@.delay
                && final(config)@.theme_color == old(config)@.theme_color && final(config)@.minimize_to_tray == old(config)@.minimize_to_tray
                && final(config)@.run_on_startup == old(config)@.run_on_startup,
            _ => final(config)@ == old(config)@ && r == Feedback::Unchanged,
        },
{
    match current {
        None => Feedback::Unchanged,
        Some(cur) => match command {
            MenuCommand::More => {
                if config.increase_weight(cur.source_index) {
                    Feedback::Save
                } else {
                    Feedback::Unchanged
                }
            },
            MenuCommand::Less => {
                if config.decrease_weight(cur.source_index) {
                    Feedback::Save
                } else {
                    Feedback::Unchanged
                }
            },
            MenuCommand::Never => {
                config.add_to_blacklist(cur.url.clone());
                Feedback::SaveThenNext
            },
            _ => Feedback::Unchanged,
        },
    }
}

} // verus!
