//! Registry coordinates: the (repository, name, tag) triple identifying a
//! stored artifact, with the two-level repository lookup (explicit on the
//! coordinate, else the job-level default, else a configuration error).

use vstd::prelude::*;

use crate::error::PublishError;

verus! {

/// A tagged image within a registry. The repository may be omitted; it then
/// falls back to the job-level default.
#[derive(Debug, Clone, PartialEq, Eq)]
pub struct ImageCoordinate {
    pub repo: Option<String>,
    pub name: String,
    pub tag: String,
}

/// The mathematical value of an [`ImageCoordinate`].
pub struct CoordView {
    pub repo: Option<Seq<char>>,
    pub name: Seq<char>,
    pub tag: Seq<char>,
}

impl View for ImageCoordinate {
    type V = CoordView;

    open spec fn view(&self) -> CoordView {
        CoordView {
            repo: match self.repo {
                Some(r) => Some(r@),
                None => None,
            },
            name: self.name@,
            tag: self.tag@,
        }
    }
}

impl DeepView for ImageCoordinate {
    type V = CoordView;

    open spec fn deep_view(&self) -> CoordView {
        self.view()
    }
}

/// The repository a coordinate resolves to: its own when set, else the
/// job-level default, else none.
pub open spec fn spec_resolve_repo(repo: Option<Seq<char>>, default_repo: Option<Seq<char>>)
    -> Option<Seq<char>>
{
    match repo {
        Some(r) => Some(r),
        None => default_repo,
    }
}

/// Resolves the repository of `coord` against the job-level default.
pub fn resolve_repo(coord: &ImageCoordinate, default_repo: &Option<String>) -> (r: Option<String>)
    ensures
        r.deep_view() == spec_resolve_repo(coord@.repo, default_repo.deep_view()),
{
    match &coord.repo {
        Some(r) => Some(r.clone()),
        None => match default_repo {
            Some(d) => Some(d.clone()),
            None => None,
        },
    }
}

/// Resolves a source coordinate's repository, failing fast with a
/// configuration error when neither the coordinate nor the job sets one.
pub fn resolve_source_repo(coord: &ImageCoordinate, default_repo: &Option<String>)
    -> (r: Result<String, PublishError>)
    ensures
        coord@.repo is None && default_repo.deep_view() is None <==> r is Err,
        r matches Ok(repo) ==> Some(repo@) == spec_resolve_repo(
            coord@.repo,
            default_repo.deep_view(),
        ),
        r matches Err(e) ==> e matches PublishError::Configuration { message }
            && message@ == "source repo not set"@,
{
    match resolve_repo(coord, default_repo) {
        Some(repo) => Ok(repo),
        None => Err(
            PublishError::Configuration { message: "source repo not set".to_owned() },
        ),
    }
}

/// Resolves a target coordinate's repository, failing fast with a
/// configuration error when neither the coordinate nor the job sets one.
pub fn resolve_target_repo(coord: &ImageCoordinate, default_repo: &Option<String>)
    -> (r: Result<String, PublishError>)
    ensures
        coord@.repo is None && default_repo.deep_view() is None <==> r is Err,
        r matches Ok(repo) ==> Some(repo@) == spec_resolve_repo(
            coord@.repo,
            default_repo.deep_view(),
        ),
        r matches Err(e) ==> e matches PublishError::Configuration { message }
            && message@ == "target repo not set"@,
{
    match resolve_repo(coord, default_repo) {
        Some(repo) => Ok(repo),
        None => Err(
            PublishError::Configuration { message: "target repo not set".to_owned() },
        ),
    }
}

/// The `name:tag` label of a coordinate.
pub open spec fn spec_label(c: CoordView) -> Seq<char> {
    c.name + ":"@ + c.tag
}

impl ImageCoordinate {
    /// The `name:tag` label shown to the operator.
    pub fn label(&self) -> (r: String)
        ensures
            r@ == spec_label(self@),
    {
        let mut r = self.name.clone();
        r.append(":");
        r.append(self.tag.as_str());
        r
    }
}

/// The labels of a list of coordinates, joined with `, `.
pub open spec fn spec_labels(coords: Seq<CoordView>) -> Seq<char>
    decreases coords.len(),
{
    if coords.len() == 0 {
        seq![]
    } else if coords.len() == 1 {
        spec_label(coords.last())
    } else {
        spec_labels(coords.drop_last()) + ", "@ + spec_label(coords.last())
    }
}

/// Writes the `name:tag` labels of the coordinates, joined with `, `, as
/// shown to the operator beside each unit's outcome.
pub fn labels(coords: &Vec<ImageCoordinate>) -> (r: String)
    ensures
        r@ == spec_labels(coords.deep_view()),
{
    let mut r = String::new();
    let n = coords.len();
    for i in 0..n
        invariant
            n == coords@.len(),
            r@ == spec_labels(coords.deep_view().take(i as int)),
    {
        if i > 0 {
            r.append(", ");
        }
        let label = coords[i].label();
        r.append(label.as_str());
        assert(coords.deep_view().take(i + 1).drop_last() == coords.deep_view().take(i as int));
        assert(coords.deep_view().take(i + 1).last() == coords.deep_view()[i as int]);
        assert(r@ =~= spec_labels(coords.deep_view().take(i + 1)));
    }
    assert(coords.deep_view().take(n as int) == coords.deep_view());
    r
}

} // verus!
