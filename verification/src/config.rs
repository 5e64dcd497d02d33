//! The configuration of a run: built once, then passed by reference.

use vstd::prelude::*;

verus! {

/// When the user is asked before anything is removed.
#[derive(Clone, Copy, Debug, PartialEq, Eq, Structural)]
pub enum Interactive {
    /// Never ask.
    Never,
    /// Ask before every target.
    EachItem,
    /// Ask once for the whole run, if it is large or recursive.
    OnceAggregate,
}

/// The policy of a run. It is a plain value and is never changed after it is
/// built.
#[derive(Clone, Copy, Debug, PartialEq, Eq, Structural)]
pub struct Config {
    /// A missing target is no error, and a failed target does not end the run.
    pub force: bool,
    /// When to ask for confirmation.
    pub interactive: Interactive,
    /// Directories are removed together with what they hold.
    pub recursive: bool,
    /// A directory may be removed without recursion, provided it is empty.
    pub allow_empty_dir: bool,
    /// Every removal is reported with a line of text.
    pub verbose: bool,
}

/// More entries than this make the aggregate confirmation necessary.
pub const AGGREGATE_THRESHOLD: usize = 3;

impl Config {
    /// The interactive mode that two switches select: `each` (ask every time)
    /// wins over `once` (ask once).
    pub open spec fn interactive_of(each: bool, once: bool) -> Interactive {
        if each {
            Interactive::EachItem
        } else if once {
            Interactive::OnceAggregate
        } else {
            Interactive::Never
        }
    }

    /// Builds the configuration from the six command-line switches.
    pub fn from_flags(
        force: bool,
        each: bool,
        once: bool,
        recursive: bool,
        allow_empty_dir: bool,
        verbose: bool,
    ) -> (config: Config)
        ensures
            config == (Config {
                force,
                interactive: Self::interactive_of(each, once),
                recursive,
                allow_empty_dir,
                verbose,
            }),
    {
        let interactive = if each {
            Interactive::EachItem
        } else if once {
            Interactive::OnceAggregate
        } else {
            Interactive::Never
        };
        Config { force, interactive, recursive, allow_empty_dir, verbose }
    }

    /// Whether a run that would remove `count` entries must be confirmed as a
    /// whole: only in the once-for-all mode, and then when more than
    /// [`AGGREGATE_THRESHOLD`] entries are at stake or recursion was asked for.
    pub open spec fn spec_needs_aggregate_prompt(&self, count: usize) -> bool {
        self.interactive == Interactive::OnceAggregate && (count > AGGREGATE_THRESHOLD
            || self.recursive)
    }

    /// Decides whether the aggregate confirmation is due for `count` entries.
    pub fn needs_aggregate_prompt(&self, count: usize) -> (due: bool)
        ensures
            due == self.spec_needs_aggregate_prompt(count),
    {
        match self.interactive {
            Interactive::OnceAggregate => count > AGGREGATE_THRESHOLD || self.recursive,
            _ => false,
        }
    }
}

impl Default for Config {
    /// The configuration of a run without switches.
    fn default() -> (config: Config)
        ensures
            config == (Config {
                force: false,
                interactive: Interactive::Never,
                recursive: false,
                allow_empty_dir: false,
                verbose: false,
            }),
    {
        Config {
            force: false,
            interactive: Interactive::Never,
            recursive: false,
            allow_empty_dir: false,
            verbose: false,
        }
    }
}

} // verus!
