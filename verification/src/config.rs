//! The settings model: keyword sources, the blacklist and the defaults.

use vstd::prelude::*;

verus! {

/// The abstract value of a keyword source.
pub struct SourceView {
    pub query: Seq<char>,
    pub kind: Seq<char>,
    pub enabled: bool,
    pub weight: u32,
}

/// The abstract value of the settings.
pub struct ConfigView {
    pub unsplash_api_key: Seq<char>,
    pub delay: Seq<char>,
    pub theme_color: Seq<char>,
    pub minimize_to_tray: bool,
    pub run_on_startup: bool,
    pub sources: Seq<SourceView>,
    pub blacklist: Seq<Seq<char>>,
}

/// A group of keywords to search wallpapers for, the provider to ask
/// (`kind`), whether it takes part and its relative weight.
#[derive(Clone, Debug)]
pub struct Source {
    pub query: String,
    pub kind: String,
    pub enabled: bool,
    pub weight: u32,
}

/// The user's settings.
#[derive(Clone, Debug)]
pub struct Config {
    pub unsplash_api_key: String,
    pub delay: String,
    pub theme_color: String,
    pub minimize_to_tray: bool,
    pub run_on_startup: bool,
    pub sources: Vec<Source>,
    pub blacklist: Vec<String>,
}

/// The wallpaper on screen: the source it came from and its address.
#[derive(Clone, Debug)]
pub struct CurrentWallpaper {
    pub source_index: usize,
    pub url: String,
}

impl View for Source {
    type V = SourceView;

    open spec fn view(&self) -> SourceView {
        SourceView { query: self.query@, kind: self.kind@, enabled: self.enabled, weight: self.weight }
    }
}

/// The abstract values of a list of sources.
pub open spec fn sources_view(sources: Seq<Source>) -> Seq<SourceView> {
    sources.map_values(|s: Source| s@)
}

/// The abstract values of a list of strings.
pub open spec fn texts_view(texts: Seq<String>) -> Seq<Seq<char>> {
    texts.map_values(|t: String| t@)
}

impl View for Config {
    type V = ConfigView;

    open spec fn view(&self) -> ConfigView {
        ConfigView {
            unsplash_api_key: self.unsplash_api_key@,
            delay: self.delay@,
            theme_color: self.theme_color@,
            minimize_to_tray: self.minimize_to_tray,
            run_on_startup: self.run_on_startup,
            sources: sources_view(self.sources@),
            blacklist: texts_view(self.blacklist@),
        }
    }
}

/// The provider that a source names when it names none.
pub fn default_source_kind() -> (kind: String)
    ensures
        kind@ == "unsplash"@,
{
    String::from_str("unsplash")
}

/// The weight that a source has when it states none.
pub fn default_weight() -> (weight: u32)
    ensures
        weight == 10,
{
    10
}

/// The settings used when none are stored or they cannot be read.
pub open spec fn default_config() -> ConfigView {
    ConfigView {
        unsplash_api_key: ""@,
        delay: "1h"@,
        theme_color: "#FFDDDD"@,
        minimize_to_tray: true,
        run_on_startup: false,
        sources: seq![SourceView { query: "nature"@, kind: "unsplash"@, enabled: true, weight: 10 }],
        blacklist: Seq::empty(),
    }
}

impl Default for Config {
    fn default() -> (config: Self)
        ensures
            config@ == default_config(),
    {
        let config = Config {
            unsplash_api_key: String::from_str(""),
            delay: String::from_str("1h"),
            theme_color: String::from_str("#FFDDDD"),
            minimize_to_tray: true,
            run_on_startup: false,
            sources: vec![Source {
                query: String::from_str("nature"),
                kind: default_source_kind(),
                enabled: true,
                weight: 10,
            }],
            blacklist: Vec::new(),
        };
        assert(config@.sources =~= default_config().sources);
        assert(config@.blacklist =~= default_config().blacklist);
        config
    }
}

} // verus!
