//! Executable resolution: given a bare command name and the execution
//! context, search the ordered extension conventions on the system search
//! path and return the first usable candidate, or a structured failure that
//! keeps "nothing matched" apart from "something matched but may not run
//! here".

use vstd::prelude::*;
use vstd::string::StringExecFns;
use crate::context::ExecutionContext;
use crate::names::{has_explicit_extension, spec_has_extension};
use crate::rules::{extension_rules, spec_rules};

verus! {

/// A successfully resolved executable: its full path and the launch demands
/// of the extension rule it matched.
#[derive(Debug)]
pub struct ResolvedExecutable {
    pub path: String,
    pub requires_shell_wrapper: bool,
    pub requires_stream_capture: bool,
}

/// A failed resolution.
#[derive(Debug)]
pub enum LocateError {
    /// No candidate executable was located for the command.
    NotFound { command: String },
    /// A candidate exists but its kind cannot be launched from the current
    /// restricted context.
    FoundButRestricted { path: String },
}

/// The outcome of a search, at the specification level.
pub ghost enum ResolutionModel {
    Resolved { path: Seq<char>, shell_wrapper: bool, stream_capture: bool },
    Restricted { path: Seq<char> },
    Missing,
}

/// The search-path lookup outcomes, at the specification level.
pub open spec fn spec_lookup_views(lookups: Seq<Option<String>>) -> Seq<Option<Seq<char>>> {
    lookups.map_values(
        |o: Option<String>|
            if o is Some {
                Some(o->Some_0@)
            } else {
                None::<Seq<char>>
            },
    )
}

/// The search over the rule table, one rule at a time from index `i` on.
/// A candidate that exists and whose rule is compatible with the context
/// wins immediately; an existing but incompatible candidate is remembered
/// (`pending`, last one wins) and the search goes on; when the rules run
/// out, a remembered candidate is reported as found-but-restricted, and
/// otherwise nothing was found at all.
pub open spec fn spec_resolve_search(
    restricted: bool,
    looks: Seq<Option<Seq<char>>>,
    i: int,
    pending: Option<Seq<char>>,
) -> ResolutionModel
    decreases spec_rules().len() - i,
{
    if i < 0 || i >= spec_rules().len() {
        match pending {
            Some(p) => ResolutionModel::Restricted { path: p },
            None => ResolutionModel::Missing,
        }
    } else {
        match looks[i] {
            Some(p) => if spec_rules()[i].supports_restricted || !restricted {
                ResolutionModel::Resolved {
                    path: p,
                    shell_wrapper: spec_rules()[i].requires_shell_wrapper,
                    stream_capture: spec_rules()[i].requires_stream_capture,
                }
            } else {
                spec_resolve_search(restricted, looks, i + 1, Some(p))
            },
            None => spec_resolve_search(restricted, looks, i + 1, pending),
        }
    }
}

/// The whole search, starting at the highest-priority rule with nothing
/// remembered.
pub open spec fn spec_select(restricted: bool, looks: Seq<Option<Seq<char>>>) -> ResolutionModel {
    spec_resolve_search(restricted, looks, 0, None)
}

/// The index of the last existing candidate (`-1` when none exists).
pub open spec fn spec_last_hit(looks: Seq<Option<Seq<char>>>) -> int
    decreases looks.len(),
{
    if looks.len() == 0 {
        -1
    } else if looks[looks.len() - 1] is Some {
        looks.len() - 1
    } else {
        spec_last_hit(looks.drop_last())
    }
}

/// How an executable result realizes a resolution model.
pub open spec fn resolution_agrees(
    r: Result<ResolvedExecutable, LocateError>,
    m: ResolutionModel,
    command: Seq<char>,
) -> bool {
    match m {
        ResolutionModel::Resolved { path, shell_wrapper, stream_capture } => r matches Ok(res)
            && res.path@ == path && res.requires_shell_wrapper == shell_wrapper
            && res.requires_stream_capture == stream_capture,
        ResolutionModel::Restricted { path } => r matches Err(LocateError::FoundButRestricted {
            path: p,
        }) && p@ == path,
        ResolutionModel::Missing => r matches Err(LocateError::NotFound { command: c }) && c@
            == command,
    }
}

/// Picks the winning candidate among the per-rule lookup outcomes.  This is
/// the pure core of the locator: `lookups[i]` is the search-path outcome for
/// the command name extended with rule `i`'s suffix, and the result follows
/// `spec_select` exactly.
pub fn select_candidate(
    command: &str,
    restricted: bool,
    lookups: &Vec<Option<String>>,
) -> (r: Result<ResolvedExecutable, LocateError>)
    requires
        lookups@.len() == spec_rules().len(),
    ensures
        resolution_agrees(r, spec_select(restricted, spec_lookup_views(lookups@)), command@),
{
    let ghost looks = spec_lookup_views(lookups@);
    let rules = extension_rules();
    let mut pending: Option<String> = None;
    let mut i: usize = 0;
    while i < rules.len()
        invariant
            looks == spec_lookup_views(lookups@),
            looks.len() == lookups@.len(),
            lookups@.len() == spec_rules().len(),
            rules@.len() == spec_rules().len(),
            forall|k: int| 0 <= k < rules@.len() ==> rules@[k]@ == spec_rules()[k],
            i <= rules@.len(),
            spec_select(restricted, looks) == spec_resolve_search(
                restricted,
                looks,
                i as int,
                match pending {
                    Some(p) => Some(p@),
                    None => None,
                },
            ),
        decreases rules@.len() - i,
    {
        proof {
            assert(looks[i as int] == (if lookups@[i as int] is Some {
                Some(lookups@[i as int]->Some_0@)
            } else {
                None::<Seq<char>>
            }));
        }
        match &lookups[i] {
            Some(p) => {
                if rules[i].supports_restricted || !restricted {
                    return Ok(
                        ResolvedExecutable {
                            path: p.clone(),
                            requires_shell_wrapper: rules[i].requires_shell_wrapper,
                            requires_stream_capture: rules[i].requires_stream_capture,
                        },
                    );
                } else {
                    pending = Some(p.clone());
                }
            },
            None => {},
        }
        i = i + 1;
    }
    match pending {
        Some(p) => Err(LocateError::FoundButRestricted { path: p }),
        None => Err(LocateError::NotFound { command: command.to_owned() }),
    }
}

/// Relies on `which::which`: searches the system search path (and the
/// working directory, for names that carry a path separator) for an
/// executable file named `name` and returns its full path when one exists.
/// The outcome depends on the machine's filesystem and environment, so
/// nothing further is promised of it.
#[verifier::external_body]
fn search_path_lookup(name: &str) -> (r: Option<String>) {
    match which::which(name) {
        Ok(p) => Some(p.to_string_lossy().into_owned()),
        Err(_) => None,
    }
}

/// Resolves a command name that already carries an explicit extension from
/// the outcome of its one literal search-path lookup.  The extension search
/// and the restricted-context rules are bypassed entirely: a hit is taken
/// as it stands and launched directly, with inherited streams, whatever its
/// suffix; a missing candidate is reported as not found.
pub fn resolve_explicit(command: &str, lookup: Option<String>) -> (r: Result<
    ResolvedExecutable,
    LocateError,
>)
    ensures
        lookup is None ==> (r matches Err(LocateError::NotFound { command: c }) && c@
            == command@),
        lookup matches Some(p) ==> (r matches Ok(res) && res.path@ == p@
            && !res.requires_shell_wrapper && !res.requires_stream_capture),
{
    match lookup {
        None => Err(LocateError::NotFound { command: command.to_owned() }),
        Some(p) => Ok(
            ResolvedExecutable {
                path: p,
                requires_shell_wrapper: false,
                requires_stream_capture: false,
            },
        ),
    }
}

/// Locates the executable for `command` in context `ctx`.  The search-path
/// outcomes depend on the machine, so the contract states what holds of
/// every outcome: capture always accompanies the shell wrapper; the search
/// never hands a shell-wrapper executable to a restricted context; only the
/// restricted search can report found-but-restricted; and a name with an
/// explicit extension is always launched directly, with inherited streams.
pub fn locate(command: &str, ctx: &ExecutionContext) -> (r: Result<ResolvedExecutable, LocateError>)
    ensures
        r matches Ok(res) ==> res.requires_stream_capture == res.requires_shell_wrapper,
        spec_has_extension(command@) ==> (r matches Ok(res) ==> !res.requires_shell_wrapper),
        !spec_has_extension(command@) && ctx.is_restricted ==> (r matches Ok(res)
            ==> !res.requires_shell_wrapper),
        r matches Err(LocateError::FoundButRestricted { path }) ==> !spec_has_extension(command@)
            && ctx.is_restricted,
        r matches Err(LocateError::NotFound { command: c }) ==> c@ == command@,
{
    if has_explicit_extension(command) {
        let lookup = search_path_lookup(command);
        resolve_explicit(command, lookup)
    } else {
        let rules = extension_rules();
        let mut lookups: Vec<Option<String>> = Vec::new();
        let mut i: usize = 0;
        while i < rules.len()
            invariant
                lookups@.len() == i,
                i <= rules@.len(),
                rules@.len() == spec_rules().len(),
                forall|k: int| 0 <= k < rules@.len() ==> rules@[k]@ == spec_rules()[k],
            decreases rules@.len() - i,
        {
            let mut candidate = command.to_owned();
            candidate.append(rules[i].suffix);
            lookups.push(search_path_lookup(candidate.as_str()));
            i = i + 1;
        }
        let r = select_candidate(command, ctx.is_restricted, &lookups);
        proof {
            lemma_select_structure(ctx.is_restricted, spec_lookup_views(lookups@));
        }
        r
    }
}

/// Structural facts that hold of every search outcome, whatever the lookups
/// returned: stream capture exactly accompanies the shell wrapper, a
/// restricted context is never handed a shell-wrapper executable, and an
/// unrestricted search never reports found-but-restricted.
pub proof fn lemma_select_structure(restricted: bool, looks: Seq<Option<Seq<char>>>)
    requires
        looks.len() == spec_rules().len(),
    ensures
        spec_select(restricted, looks) matches ResolutionModel::Resolved {
            shell_wrapper,
            stream_capture,
            ..
        } ==> stream_capture == shell_wrapper,
        restricted ==> (spec_select(restricted, looks) matches ResolutionModel::Resolved {
            shell_wrapper,
            ..
        } ==> !shell_wrapper),
        !restricted ==> !(spec_select(restricted, looks) matches ResolutionModel::Restricted {
            ..
        }),
{
    reveal_with_fuel(spec_resolve_search, 5);
}

/// Law: when the context is unrestricted, the earliest rule whose candidate
/// exists wins the resolution — priority order alone decides.  In particular
/// the native binary beats every scripted wrapper whenever both exist,
/// because its rule comes first in the table.
pub proof fn lemma_priority_order_decides(looks: Seq<Option<Seq<char>>>, i: int)
    requires
        looks.len() == spec_rules().len(),
        0 <= i < looks.len(),
        looks[i] is Some,
        forall|j: int| 0 <= j < i ==> looks[j] is None,
    ensures
        spec_select(false, looks) == (ResolutionModel::Resolved {
            path: looks[i]->Some_0,
            shell_wrapper: spec_rules()[i].requires_shell_wrapper,
            stream_capture: spec_rules()[i].requires_stream_capture,
        }),
{
    reveal_with_fuel(spec_resolve_search, 5);
}

/// Law: in a restricted context, when candidates exist but none of their
/// rules supports the restricted context, resolution reports one of them as
/// found-but-restricted — never as missing — and the reported path is the
/// last existing candidate's (last one wins).
pub proof fn lemma_restricted_wrapper_reported(looks: Seq<Option<Seq<char>>>)
    requires
        looks.len() == spec_rules().len(),
        forall|j: int|
            0 <= j < looks.len() && (#[trigger] looks[j]) is Some
                ==> !spec_rules()[j].supports_restricted,
        exists|j: int| 0 <= j < looks.len() && (#[trigger] looks[j]) is Some,
    ensures
        spec_select(true, looks) == (ResolutionModel::Restricted {
            path: looks[spec_last_hit(looks)]->Some_0,
        }),
{
    reveal_with_fuel(spec_resolve_search, 5);
    reveal_with_fuel(spec_last_hit, 5);
}

/// Law: when the context is unrestricted and only scripted-wrapper
/// candidates exist, resolution still succeeds and demands the shell
/// wrapper (with its captured streams).
pub proof fn lemma_unrestricted_wrapper_resolves(looks: Seq<Option<Seq<char>>>, i: int)
    requires
        looks.len() == spec_rules().len(),
        0 < i < looks.len(),
        looks[i] is Some,
        forall|j: int| 0 <= j < i ==> looks[j] is None,
    ensures
        spec_select(false, looks) matches ResolutionModel::Resolved {
            shell_wrapper,
            stream_capture,
            ..
        } && shell_wrapper && stream_capture,
{
    lemma_priority_order_decides(looks, i);
}

} // verus!

