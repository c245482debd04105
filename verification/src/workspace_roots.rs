//! Workspace roots of a turn's environment: duplicates are dropped, first occurrence
//! first, and an environment without explicit roots uses its working directory.

use vstd::prelude::*;
use crate::error::{KodexErr, KodexErrView};

verus! {

/// `s` with every element that occurred earlier removed.
pub open spec fn dedup(s: Seq<Seq<char>>) -> Seq<Seq<char>>
    decreases s.len(),
{
    if s.len() == 0 {
        Seq::empty()
    } else {
        let d = dedup(s.drop_last());
        if d.contains(s.last()) {
            d
        } else {
            d.push(s.last())
        }
    }
}

pub open spec fn strings_view(v: Seq<String>) -> Seq<Seq<char>> {
    v.map_values(|s: String| s@)
}

pub open spec fn no_duplicates(s: Seq<Seq<char>>) -> bool {
    forall|i: int, j: int| 0 <= i < s.len() && 0 <= j < s.len() && i != j ==> s[i] != s[j]
}

fn contains_root(roots: &Vec<String>, root: &String) -> (r: bool)
    ensures
        r == strings_view(roots@).contains(root@),
{
    let n = roots.len();
    let mut i: usize = 0;
    while i < n
        invariant
            n == roots@.len(),
            i <= n,
            forall|k: int| 0 <= k < i ==> roots@[k]@ != root@,
        decreases n - i,
    {
        if roots[i] == *root {
            assert(strings_view(roots@)[i as int] == root@);
            return true;
        }
        i = i + 1;
    }
    assert(!strings_view(roots@).contains(root@)) by {
        if strings_view(roots@).contains(root@) {
            let k = choose|k: int| 0 <= k < n && strings_view(roots@)[k] == root@;
            assert(roots@[k]@ == root@);
        }
    }
    false
}

/// Drops repeated roots, keeping the first occurrence of each, in order.
pub fn resolve_runtime_workspace_roots(workspace_roots: Vec<String>) -> (r: Vec<String>)
    ensures
        strings_view(r@) == dedup(strings_view(workspace_roots@)),
{
    let mut resolved: Vec<String> = Vec::new();
    let n = workspace_roots.len();
    let mut i: usize = 0;
    while i < n
        invariant
            n == workspace_roots@.len(),
            i <= n,
            strings_view(resolved@) == dedup(strings_view(workspace_roots@).subrange(0, i as int)),
        decreases n - i,
    {
        let ghost s = strings_view(workspace_roots@);
        assert(s.subrange(0, i + 1).drop_last() =~= s.subrange(0, i as int));
        let root = &workspace_roots[i];
        if !contains_root(&resolved, root) {
            resolved.push(root.clone());
            assert(strings_view(resolved@) =~= dedup(s.subrange(0, i as int)).push(root@));
        }
        i = i + 1;
    }
    assert(strings_view(workspace_roots@).subrange(0, n as int) =~= strings_view(workspace_roots@));
    resolved
}

/// The roots of an environment: its explicit roots, deduplicated, else its working directory.
pub fn environment_workspace_roots(cwd: String, roots: Option<Vec<String>>) -> (r: Vec<String>)
    ensures
        strings_view(r@) == match roots {
            Some(v) => dedup(strings_view(v@)),
            None => seq![cwd@],
        },
{
    match roots {
        Some(v) => resolve_runtime_workspace_roots(v),
        None => {
            let mut r: Vec<String> = Vec::new();
            r.push(cwd);
            assert(strings_view(r@) =~= seq![cwd@]);
            r
        },
    }
}

/// Deduplicated roots hold no root twice.
pub proof fn law_dedup_has_no_duplicates(s: Seq<Seq<char>>)
    ensures
        no_duplicates(dedup(s)),
    decreases s.len(),
{
    if s.len() > 0 {
        law_dedup_has_no_duplicates(s.drop_last());
    }
}

proof fn lemma_contains_push(t: Seq<Seq<char>>, y: Seq<char>, x: Seq<char>)
    ensures
        t.push(y).contains(x) <==> (t.contains(x) || x == y),
{
    if t.push(y).contains(x) {
        let k = choose|k: int| 0 <= k < t.push(y).len() && t.push(y)[k] == x;
        if k < t.len() {
            assert(t[k] == x);
        }
    }
    if t.contains(x) {
        let k = choose|k: int| 0 <= k < t.len() && t[k] == x;
        assert(t.push(y)[k] == x);
    }
    if x == y {
        assert(t.push(y)[t.len() as int] == x);
    }
}

/// Deduplication keeps exactly the roots it was given.
pub proof fn law_dedup_keeps_every_root(s: Seq<Seq<char>>, x: Seq<char>)
    ensures
        dedup(s).contains(x) <==> s.contains(x),
    decreases s.len(),
{
    if s.len() > 0 {
        let t = s.drop_last();
        law_dedup_keeps_every_root(t, x);
        assert(t.push(s.last()) =~= s);
        lemma_contains_push(t, s.last(), x);
        lemma_contains_push(dedup(t), s.last(), x);
        if dedup(t).contains(s.last()) {
            law_dedup_keeps_every_root(t, s.last());
        }
    }
}

/// Deduplicating twice changes nothing.
pub proof fn law_dedup_idempotent(s: Seq<Seq<char>>)
    ensures
        dedup(dedup(s)) == dedup(s),
{
    law_dedup_has_no_duplicates(s);
    lemma_dedup_of_distinct(dedup(s));
}

proof fn lemma_dedup_of_distinct(s: Seq<Seq<char>>)
    requires
        no_duplicates(s),
    ensures
        dedup(s) == s,
    decreases s.len(),
{
    if s.len() > 0 {
        let t = s.drop_last();
        assert(no_duplicates(t));
        lemma_dedup_of_distinct(t);
        assert(!t.contains(s.last())) by {
            if t.contains(s.last()) {
                let k = choose|k: int| 0 <= k < t.len() && t[k] == s.last();
                assert(s[k] == s[s.len() - 1]);
            }
        }
        assert(t.push(s.last()) =~= s);
    }
}

} // verus!

verus! {

/// A path as the request wrote it, with its parsed absolute form (`None` when the text
/// does not use absolute POSIX or Windows path syntax).
pub struct PathParam {
    pub text: String,
    pub parsed: Option<String>,
}

/// An environment that a turn asks for.
pub struct TurnEnvironmentParams {
    pub environment_id: String,
    pub cwd: PathParam,
    pub runtime_workspace_roots: Option<Vec<PathParam>>,
}

/// The environment a turn runs in.
pub struct TurnEnvironmentSelection {
    pub environment_id: String,
    pub cwd: String,
    pub workspace_roots: Vec<String>,
}

pub struct SelectionView {
    pub environment_id: Seq<char>,
    pub cwd: Seq<char>,
    pub workspace_roots: Seq<Seq<char>>,
}

pub open spec fn selection_view(s: TurnEnvironmentSelection) -> SelectionView {
    SelectionView { environment_id: s.environment_id@, cwd: s.cwd@, workspace_roots: strings_view(s.workspace_roots@) }
}

pub open spec fn selections_view(s: Seq<TurnEnvironmentSelection>) -> Seq<SelectionView> {
    s.map_values(|x: TurnEnvironmentSelection| selection_view(x))
}

pub const INVALID_CWD_PREFIX: &'static str = "invalid cwd for environment `";
pub const INVALID_ROOT_PREFIX: &'static str = "invalid runtime workspace root for environment `";
pub const PATH_INFIX: &'static str = "`: path `";
pub const NOT_ABSOLUTE_SUFFIX: &'static str = "` does not use absolute POSIX or Windows path syntax";

/// The message for a path of environment `id` that is not absolute.
pub open spec fn not_absolute_message(prefix: Seq<char>, id: Seq<char>, path: Seq<char>) -> Seq<char> {
    prefix + id + PATH_INFIX@ + path + NOT_ABSOLUTE_SUFFIX@
}

/// The text of the first path that did not parse.
pub open spec fn first_unparsed(ps: Seq<PathParam>) -> Option<Seq<char>>
    decreases ps.len(),
{
    if ps.len() == 0 {
        None
    } else if ps[0].parsed is None {
        Some(ps[0].text@)
    } else {
        first_unparsed(ps.drop_first())
    }
}

/// The parsed forms of paths that all parsed.
pub open spec fn parsed_paths(ps: Seq<PathParam>) -> Seq<Seq<char>> {
    ps.map_values(|p: PathParam| match p.parsed {
        Some(x) => x@,
        None => Seq::empty(),
    })
}

/// The selection for one environment: its working directory must parse, then each of
/// its explicit roots in order; the roots are deduplicated, and an environment without
/// explicit roots uses its working directory. An error is the message of the first
/// path that does not parse.
pub open spec fn spec_resolve_selection(p: TurnEnvironmentParams) -> Result<SelectionView, Seq<char>> {
    let id = p.environment_id@;
    match p.cwd.parsed {
        None => Err(not_absolute_message(INVALID_CWD_PREFIX@, id, p.cwd.text@)),
        Some(cwd) => match p.runtime_workspace_roots {
            None => Ok(SelectionView { environment_id: id, cwd: cwd@, workspace_roots: seq![cwd@] }),
            Some(roots) => match first_unparsed(roots@) {
                Some(bad) => Err(not_absolute_message(INVALID_ROOT_PREFIX@, id, bad)),
                None => Ok(SelectionView { environment_id: id, cwd: cwd@, workspace_roots: dedup(parsed_paths(roots@)) }),
            },
        },
    }
}

/// The selections for all environments, in order, or the first environment's error.
pub open spec fn spec_resolve_all(ps: Seq<TurnEnvironmentParams>) -> Result<Seq<SelectionView>, Seq<char>>
    decreases ps.len(),
{
    if ps.len() == 0 {
        Ok(Seq::empty())
    } else {
        match spec_resolve_all(ps.drop_last()) {
            Err(e) => Err(e),
            Ok(v) => match spec_resolve_selection(ps.last()) {
                Err(e) => Err(e),
                Ok(s) => Ok(v.push(s)),
            },
        }
    }
}

fn not_absolute(prefix: &str, id: &str, path: &str) -> (r: String)
    ensures
        r@ == not_absolute_message(prefix@, id@, path@),
{
    let mut s = String::from_str(prefix);
    s.append(id);
    s.append(PATH_INFIX);
    s.append(path);
    s.append(NOT_ABSOLUTE_SUFFIX);
    s
}

/// Reads the parsed roots, or the text of the first root that did not parse.
fn parse_roots(roots: &Vec<PathParam>) -> (r: Result<Vec<String>, String>)
    ensures
        match r {
            Ok(v) => first_unparsed(roots@) is None && strings_view(v@) == parsed_paths(roots@),
            Err(t) => first_unparsed(roots@) == Some(t@),
        },
{
    let n = roots.len();
    let mut out: Vec<String> = Vec::new();
    let mut i: usize = 0;
    assert(roots@.subrange(0, n as int) =~= roots@);
    while i < n
        invariant
            n == roots@.len(),
            i <= n,
            first_unparsed(roots@) == first_unparsed(roots@.subrange(i as int, n as int)),
            out@.len() == i,
            strings_view(out@) == parsed_paths(roots@.subrange(0, i as int)),
        decreases n - i,
    {
        let ghost rest = roots@.subrange(i as int, n as int);
        assert(rest[0] == roots@[i as int]);
        match &roots[i].parsed {
            None => return Err(roots[i].text.clone()),
            Some(p) => {
                assert(rest.drop_first() =~= roots@.subrange(i + 1, n as int));
                let ghost prev = out@;
                let q = p.clone();
                assert(q@ == p@);
                out.push(q);
                assert forall|k: int| 0 <= k <= i implies #[trigger] strings_view(out@)[k] == parsed_paths(roots@.subrange(0, i + 1))[k] by {
                    if k < i {
                        assert(out@[k] == prev[k]);
                        assert(strings_view(prev)[k] == parsed_paths(roots@.subrange(0, i as int))[k]);
                        assert(roots@.subrange(0, i + 1)[k] == roots@.subrange(0, i as int)[k]);
                    } else {
                        assert(roots@.subrange(0, i + 1)[k] == roots@[i as int]);
                        assert(out@[k] == q);
                    }
                }
                assert(strings_view(out@) =~= parsed_paths(roots@.subrange(0, i + 1)));
            },
        }
        i = i + 1;
    }
    assert(roots@.subrange(n as int, n as int).len() == 0);
    Ok(out)
}

/// Resolves the environment a turn asks for, as [`spec_resolve_selection`] describes.
pub fn resolve_environment_selection(p: TurnEnvironmentParams) -> (r: Result<TurnEnvironmentSelection, String>)
    ensures
        match r {
            Ok(s) => spec_resolve_selection(p) == Ok::<SelectionView, Seq<char>>(selection_view(s)),
            Err(e) => spec_resolve_selection(p) == Err::<SelectionView, Seq<char>>(e@),
        },
{
    let cwd = match &p.cwd.parsed {
        None => return Err(not_absolute(INVALID_CWD_PREFIX, p.environment_id.as_str(), p.cwd.text.as_str())),
        Some(c) => c.clone(),
    };
    let workspace_roots = match &p.runtime_workspace_roots {
        None => {
            let mut v: Vec<String> = Vec::new();
            v.push(cwd.clone());
            assert(strings_view(v@) =~= seq![cwd@]);
            v
        },
        Some(roots) => match parse_roots(roots) {
            Err(bad) => return Err(not_absolute(INVALID_ROOT_PREFIX, p.environment_id.as_str(), bad.as_str())),
            Ok(parsed) => resolve_runtime_workspace_roots(parsed),
        },
    };
    Ok(TurnEnvironmentSelection { environment_id: p.environment_id, cwd, workspace_roots })
}

/// Resolves the environments a turn asks for: `None` when it names none, else every
/// selection in order, or the error of the first environment that has one.
pub fn resolve_turn_environment_selections(environments: Option<Vec<TurnEnvironmentParams>>) -> (r: Result<Option<Vec<TurnEnvironmentSelection>>, String>)
    ensures
        match environments {
            None => r matches Ok(None),
            Some(ps) => match spec_resolve_all(ps@) {
                Ok(v) => r matches Ok(Some(s)) && selections_view(s@) == v,
                Err(e) => r matches Err(m) && m@ == e,
            },
        },
{
    let envs = match environments {
        None => return Ok(None),
        Some(ps) => ps,
    };
    let ghost all = envs@;
    assert(environments matches Some(ps) && ps@ == all);
    assert(all.subrange(0, all.len() as int) =~= all);
    let mut selections: Vec<TurnEnvironmentSelection> = Vec::new();
    assert(all.subrange(0, 0).len() == 0);
    assert(selections_view(selections@) =~= Seq::<SelectionView>::empty());
    let mut rest = envs;
    let n = rest.len();
    let mut i: usize = 0;
    while i < n
        invariant
            n == all.len(),
            rest@ == all.subrange(i as int, n as int),
            environments matches Some(ps) && ps@ == all,
            i <= n,
            spec_resolve_all(all.subrange(0, i as int)) == Ok::<Seq<SelectionView>, Seq<char>>(selections_view(selections@)),
        decreases n - i,
    {
        let p = rest.remove(0);
        assert(p == all[i as int]);
        assert(rest@ =~= all.subrange(i + 1, n as int));
        assert(all.subrange(0, i + 1).drop_last() =~= all.subrange(0, i as int));
        assert(all.subrange(0, i + 1).last() == all[i as int]);
        let ghost before = selections_view(selections@);
        match resolve_environment_selection(p) {
            Err(e) => {
                proof {
                    assert(spec_resolve_selection(all[i as int]) == Err::<SelectionView, Seq<char>>(e@));
                    assert(spec_resolve_all(all.subrange(0, i + 1)) == Err::<Seq<SelectionView>, Seq<char>>(e@));
                    lemma_resolve_all_error(all, i as int + 1);
                    assert(spec_resolve_all(all) == Err::<Seq<SelectionView>, Seq<char>>(e@));
                }
                return Err(e);
            },
            Ok(s) => {
                let ghost sv = selection_view(s);
                selections.push(s);
                assert(selections_view(selections@) =~= before.push(sv));
            },
        }
        i = i + 1;
    }
    assert(all.subrange(0, n as int) =~= all);
    Ok(Some(selections))
}

/// Once a prefix of the environments fails, every longer prefix fails the same way.
proof fn lemma_resolve_all_error(ps: Seq<TurnEnvironmentParams>, k: int)
    requires
        0 < k <= ps.len(),
        spec_resolve_all(ps.subrange(0, k)) is Err,
    ensures
        spec_resolve_all(ps) == spec_resolve_all(ps.subrange(0, k)),
    decreases ps.len() - k,
{
    if k < ps.len() {
        assert(ps.subrange(0, k + 1).drop_last() =~= ps.subrange(0, k));
        lemma_resolve_all_error(ps, k + 1);
    } else {
        assert(ps.subrange(0, k) =~= ps);
    }
}

/// An error answer to a request: the request itself is invalid, or the server failed.
pub enum RequestError {
    InvalidRequest(String),
    Internal(String),
}

pub const VALIDATION_FAILED_PREFIX: &'static str = "failed to validate environment selections: ";

/// The answer to a failed validation of environment selections: an invalid request
/// keeps its message; any other error is an internal error whose message names the
/// failure, followed by the error's text (`rendered`).
pub open spec fn spec_environment_selection_error(err: KodexErrView, rendered: Seq<char>) -> (bool, Seq<char>) {
    match err {
        KodexErrView::InvalidRequest(m) => (true, m),
        _ => (false, VALIDATION_FAILED_PREFIX@ + rendered),
    }
}

pub open spec fn request_error_view(e: RequestError) -> (bool, Seq<char>) {
    match e {
        RequestError::InvalidRequest(m) => (true, m@),
        RequestError::Internal(m) => (false, m@),
    }
}

/// Maps a failed validation of environment selections; `rendered` is the error's text.
pub fn environment_selection_error(err: KodexErr, rendered: &str) -> (r: RequestError)
    ensures
        request_error_view(r) == spec_environment_selection_error(err.view(), rendered@),
{
    match err {
        KodexErr::InvalidRequest(m) => RequestError::InvalidRequest(m),
        _ => {
            let mut m = String::from_str(VALIDATION_FAILED_PREFIX);
            m.append(rendered);
            RequestError::Internal(m)
        },
    }
}

/// Finishes resolving a turn's environments once the resolved selections were
/// validated: `validation` is `None` when there was nothing to validate (no
/// environments, or a path that did not parse), else the validation's outcome with
/// the error's text. A bad path is an invalid request with its message; a failed
/// validation is answered as [`environment_selection_error`] says; otherwise the
/// selections stand.
pub fn finish_environment_selections(
    resolved: Result<Option<Vec<TurnEnvironmentSelection>>, String>,
    validation: Option<Result<(), (KodexErr, String)>>,
) -> (r: Result<Option<Vec<TurnEnvironmentSelection>>, RequestError>)
    requires
        resolved matches Ok(Some(_)) <==> validation is Some,
    ensures
        match (resolved, validation) {
            (Err(m), _) => r matches Err(e) && request_error_view(e) == (true, m@),
            (Ok(None), _) => r matches Ok(None),
            (Ok(Some(s)), Some(Ok(()))) => r == Ok::<Option<Vec<TurnEnvironmentSelection>>, RequestError>(Some(s)),
            (Ok(Some(_)), Some(Err((e, text)))) => r matches Err(x)
                && request_error_view(x) == spec_environment_selection_error(e.view(), text@),
            _ => false,
        },
{
    match resolved {
        Err(m) => Err(RequestError::InvalidRequest(m)),
        Ok(None) => Ok(None),
        Ok(Some(selections)) => match validation {
            Some(Ok(())) => Ok(Some(selections)),
            Some(Err((e, text))) => Err(environment_selection_error(e, text.as_str())),
            None => Ok(Some(selections)),
        },
    }
}

} // verus!
