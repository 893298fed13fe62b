use vstd::prelude::*;

verus! {

/// Which of the three pages the application shows.
#[derive(Debug, Clone, Copy, PartialEq, Eq)]
pub enum AppView {
    PlayerState,
    Podcasts,
    Debug,
}

impl AppView {
    /// The page that a URL's query part (`location.search`) asks for:
    /// `?podcast` or `?podcasts` the podcasts, `?debug` the debug page, anything
    /// else the player.
    pub open spec fn spec_from_search(search: Seq<char>) -> AppView {
        if search == "?podcast"@ || search == "?podcasts"@ {
            AppView::Podcasts
        } else if search == "?debug"@ {
            AppView::Debug
        } else {
            AppView::PlayerState
        }
    }

    /// The page that `search`, a URL's query part, asks for.
    pub fn from_search(search: &str) -> (r: AppView)
        ensures
            r == AppView::spec_from_search(search@),
    {
        let search = search.to_owned();
        if search == "?podcast".to_owned() || search == "?podcasts".to_owned() {
            AppView::Podcasts
        } else if search == "?debug".to_owned() {
            AppView::Debug
        } else {
            AppView::PlayerState
        }
    }

    /// The class name that the root element carries for this page.
    pub fn classname(self) -> (r: &'static str)
        ensures
            r@ == match self {
                AppView::PlayerState => "player-state"@,
                AppView::Podcasts => "podcasts"@,
                AppView::Debug => "debug"@,
            },
    {
        match self {
            AppView::PlayerState => "player-state",
            AppView::Podcasts => "podcasts",
            AppView::Debug => "debug",
        }
    }
}

} // verus!
