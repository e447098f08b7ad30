//! Top-level session configuration and the decisions around building and
//! replacing sessions.

use vstd::prelude::*;

use crate::bytes::{bytes_eq, copy_bytes};
use crate::paths::SEP;

verus! {

/// Which fuzzy-finder backend is available for searching.
#[derive(Clone, Copy, Debug, PartialEq, Eq, Structural)]
pub enum FuzzyMode {
    FZF,
    SK,
    Off,
}

/// The fuzzy-finder the probed environment selects.
pub open spec fn fuzzy_mode_of(searchable: bool, has_fzf: bool, has_sk: bool) -> FuzzyMode {
    if searchable && has_fzf {
        FuzzyMode::FZF
    } else if searchable && has_sk {
        FuzzyMode::SK
    } else {
        FuzzyMode::Off
    }
}

impl FuzzyMode {
    /// Picks the fuzzy-finder: fzf first, then sk; none when the catalog has
    /// no subdirectories or neither finder is installed.
    pub fn get(searchable: bool, has_fzf: bool, has_sk: bool) -> (r: Self)
        ensures
            r == fuzzy_mode_of(searchable, has_fzf, has_sk),
    {
        if searchable {
            if has_fzf {
                return FuzzyMode::FZF;
            }
            if has_sk {
                return FuzzyMode::SK;
            }
        }
        FuzzyMode::Off
    }
}

/// Whether the search runs over the working directory or a path argument.
#[derive(Clone, Copy, Debug, PartialEq, Eq, Structural)]
pub enum SearchDir {
    CurrentDir,
    PathArg,
}

/// The search-directory kind the probed environment selects.
pub open spec fn search_dir_of(is_current_dir: bool) -> SearchDir {
    if is_current_dir {
        SearchDir::CurrentDir
    } else {
        SearchDir::PathArg
    }
}

impl SearchDir {
    pub fn get(is_current_dir: bool) -> (r: Self)
        ensures
            r == search_dir_of(is_current_dir),
    {
        if is_current_dir {
            SearchDir::CurrentDir
        } else {
            SearchDir::PathArg
        }
    }
}

/// Why a session cannot be configured.
#[derive(Clone, Copy, Debug, PartialEq, Eq, Structural)]
pub enum AppError {
    /// The catalog has subdirectories, so a fuzzy-finder is required, but
    /// neither backend is installed.
    FinderRequired,
}

/// One session's configuration.
pub struct App {
    pub fd_available: bool,
    pub fuzzy_mode: FuzzyMode,
    pub path: Vec<u8>,
    pub path_string: String,
    pub search_dir: SearchDir,
    pub searchable: bool,
}

/// What a finished external fuzzy selection leads to: a selection equal to
/// the search base (with its trailing separator) or to the current
/// activation loads nothing; any other selection loads a new session.
#[derive(Clone, Copy, Debug, PartialEq, Eq, Structural)]
pub enum FuzzySearchAction {
    ExitEarly,
    Redraw,
    Load,
}

/// The expected outcome of a fuzzy selection `fuzzy_path` made over the
/// search base `base` while `current` is active.
pub open spec fn fuzzy_search_expected(
    base: Seq<u8>,
    fuzzy_path: Seq<u8>,
    current: Seq<u8>,
    is_first_run: bool,
) -> FuzzySearchAction {
    if fuzzy_path == base.push(SEP) || fuzzy_path == current {
        if is_first_run {
            FuzzySearchAction::ExitEarly
        } else {
            FuzzySearchAction::Redraw
        }
    } else {
        FuzzySearchAction::Load
    }
}

/// Whether committing the leaf at `selected` must load a new session: only
/// when it differs from the currently active path, if any.
pub fn should_reload(selected: &Vec<u8>, current: Option<&Vec<u8>>) -> (r: bool)
    ensures
        r == match current {
            Option::Some(c) => selected@ != c@,
            Option::None => true,
        },
{
    match current {
        Some(c) => !bytes_eq(selected, c),
        None => true,
    }
}

impl App {
    /// Decides the session configuration from the probed environment. A
    /// searchable catalog with neither fuzzy-finder installed is refused;
    /// otherwise every probed value is recorded as it is.
    pub fn try_new(
        path: Vec<u8>,
        path_string: String,
        searchable: bool,
        has_fzf: bool,
        has_sk: bool,
        has_fd: bool,
        is_current_dir: bool,
    ) -> (r: Result<Self, AppError>)
        ensures
            match r {
                Result::Ok(app) => {
                    &&& !(searchable && !has_fzf && !has_sk)
                    &&& app.fd_available == has_fd
                    &&& app.fuzzy_mode == fuzzy_mode_of(searchable, has_fzf, has_sk)
                    &&& app.path == path
                    &&& app.path_string == path_string
                    &&& app.search_dir == search_dir_of(is_current_dir)
                    &&& app.searchable == searchable
                },
                Result::Err(e) => searchable && !has_fzf && !has_sk && e
                    == AppError::FinderRequired,
            },
    {
        let fuzzy_mode = FuzzyMode::get(searchable, has_fzf, has_sk);
        if searchable && fuzzy_mode == FuzzyMode::Off {
            return Err(AppError::FinderRequired);
        }
        Ok(
            App {
                fd_available: has_fd,
                fuzzy_mode,
                search_dir: SearchDir::get(is_current_dir),
                path,
                path_string,
                searchable,
            },
        )
    }

    /// Decides what a finished external fuzzy selection does: escaped or
    /// unchanged selections reload nothing (the very first one exits the
    /// program, a later one only redraws); anything else loads a session.
    pub fn fuzzy_search_action(
        &self,
        fuzzy_path: &Vec<u8>,
        current_path: &Vec<u8>,
        is_first_run: bool,
    ) -> (r: FuzzySearchAction)
        ensures
            r == fuzzy_search_expected(self.path@, fuzzy_path@, current_path@, is_first_run),
    {
        let mut base = copy_bytes(&self.path);
        base.push(SEP);
        if bytes_eq(fuzzy_path, &base) || bytes_eq(fuzzy_path, current_path) {
            if is_first_run {
                FuzzySearchAction::ExitEarly
            } else {
                FuzzySearchAction::Redraw
            }
        } else {
            FuzzySearchAction::Load
        }
    }
}

} // verus!
