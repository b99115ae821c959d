//! Target resolution: classify what a raw target string matched.
//!
//! The daemon is queried for containers whose id or name matches the
//! string exactly; only when no container matches is it queried for an
//! image.  A single running match always takes precedence; a stopped
//! target is reported as such and never implicitly started; several
//! matches with no clear winner are ambiguous, and the candidate list is
//! kept so the failure can be surfaced with it.
//!
//! Registry and tag normalization of an image reference is the daemon
//! query's own business: the image matches handed in here are taken as
//! already normalized.

use vstd::prelude::*;

verus! {

/// One container the daemon reported as matching the target string.
pub struct ContainerMatch {
    /// The container id.
    pub id: String,
    /// Whether the container is currently running.
    pub running: bool,
    /// The container's configured default user.
    pub user: String,
}

/// Mathematical model of a `ContainerMatch`.
pub struct MatchV {
    pub id: Seq<char>,
    pub running: bool,
    pub user: Seq<char>,
}

impl View for ContainerMatch {
    type V = MatchV;

    open spec fn view(&self) -> MatchV {
        MatchV { id: self.id@, running: self.running, user: self.user@ }
    }
}

impl DeepView for ContainerMatch {
    type V = MatchV;

    open spec fn deep_view(&self) -> MatchV {
        self.view()
    }
}

/// What a list of container matches amounts to.
#[derive(Clone, Copy, Debug, PartialEq, Eq, Structural)]
pub enum ContainerClass {
    /// Exactly one match is running: attach to the match at this index.
    Running(usize),
    /// Exactly one match, and it is stopped.
    Stopped,
    /// Several matches and no single running one to pick.
    Ambiguous,
    /// No container matched at all.
    NoMatch,
}

/// How many of the matches are running.
pub open spec fn count_running(ms: Seq<MatchV>) -> int
    decreases ms.len(),
{
    if ms.len() == 0 {
        0
    } else {
        count_running(ms.drop_last()) + if ms.last().running {
            1int
        } else {
            0int
        }
    }
}

/// The index of the first running match; meaningful only when one exists.
pub open spec fn first_running(ms: Seq<MatchV>) -> int
    decreases ms.len(),
{
    if ms.len() == 0 {
        0
    } else if count_running(ms.drop_last()) > 0 {
        first_running(ms.drop_last())
    } else {
        ms.len() - 1
    }
}

proof fn lemma_count_running_bounds(ms: Seq<MatchV>)
    ensures
        0 <= count_running(ms) <= ms.len(),
    decreases ms.len(),
{
    if ms.len() > 0 {
        lemma_count_running_bounds(ms.drop_last());
    }
}

/// When a running match exists, `first_running` names the first one.
pub proof fn lemma_first_running(ms: Seq<MatchV>)
    requires
        count_running(ms) > 0,
    ensures
        0 <= first_running(ms) < ms.len(),
        ms[first_running(ms)].running,
        forall|k: int| 0 <= k < first_running(ms) ==> !ms[k].running,
    decreases ms.len(),
{
    if ms.len() > 0 {
        if count_running(ms.drop_last()) > 0 {
            lemma_first_running(ms.drop_last());
            assert(first_running(ms) == first_running(ms.drop_last()));
            assert(ms[first_running(ms)] == ms.drop_last()[first_running(ms)]);
            assert forall|k: int| 0 <= k < first_running(ms) implies !ms[k].running by {
                assert(ms[k] == ms.drop_last()[k]);
            }
        } else {
            lemma_count_running_bounds(ms.drop_last());
            assert forall|k: int| 0 <= k < first_running(ms) implies !ms[k].running by {
                lemma_no_running_in_prefix(ms.drop_last(), k);
                assert(ms[k] == ms.drop_last()[k]);
            }
        }
    }
}

proof fn lemma_no_running_in_prefix(ms: Seq<MatchV>, k: int)
    requires
        count_running(ms) == 0,
        0 <= k < ms.len(),
    ensures
        !ms[k].running,
    decreases ms.len(),
{
    lemma_count_running_bounds(ms.drop_last());
    if k < ms.len() - 1 {
        lemma_no_running_in_prefix(ms.drop_last(), k);
    }
}

/// The classification of a container match list: a unique running match
/// wins; with no running match, one stopped match is reported as stopped;
/// several candidates with no winner are ambiguous.
pub open spec fn classify_model(ms: Seq<MatchV>) -> ContainerClass {
    if count_running(ms) == 1 {
        ContainerClass::Running(first_running(ms) as usize)
    } else if count_running(ms) >= 2 {
        ContainerClass::Ambiguous
    } else if ms.len() == 0 {
        ContainerClass::NoMatch
    } else if ms.len() == 1 {
        ContainerClass::Stopped
    } else {
        ContainerClass::Ambiguous
    }
}

/// Classify the container matches, as `classify_model` states.
pub fn classify_containers(ms: &Vec<ContainerMatch>) -> (r: ContainerClass)
    ensures
        r == classify_model(ms.deep_view()),
{
    let ghost msv = ms.deep_view();
    let mut i: usize = 0;
    let mut count: usize = 0;
    let mut found: usize = 0;
    let mut has_found: bool = false;
    while i < ms.len()
        invariant
            i <= ms.len(),
            msv == ms.deep_view(),
            msv.len() == ms.len(),
            count == count_running(msv.take(i as int)),
            count <= i,
            has_found <==> count_running(msv.take(i as int)) > 0,
            has_found ==> found == first_running(msv.take(i as int)),
        decreases ms.len() - i,
    {
        proof {
            assert(msv.take(i + 1).drop_last() =~= msv.take(i as int));
            assert(msv.take(i + 1).last() == msv[i as int]);
        }
        if ms[i].running {
            if !has_found {
                found = i;
                has_found = true;
            }
            count = count + 1;
        }
        i = i + 1;
    }
    proof {
        assert(msv.take(ms.len() as int) =~= msv);
    }
    if count == 1 {
        ContainerClass::Running(found)
    } else if count >= 2 {
        ContainerClass::Ambiguous
    } else if ms.len() == 0 {
        ContainerClass::NoMatch
    } else if ms.len() == 1 {
        ContainerClass::Stopped
    } else {
        ContainerClass::Ambiguous
    }
}

/// The ids of the matches, in the order the daemon reported them: the
/// candidate list an ambiguous failure is surfaced with.
pub open spec fn ids_model(ms: Seq<MatchV>) -> Seq<Seq<char>> {
    Seq::new(ms.len(), |i: int| ms[i].id)
}

/// Collect the match ids, as `ids_model` states.
pub fn match_ids(ms: &Vec<ContainerMatch>) -> (r: Vec<String>)
    ensures
        r.deep_view() == ids_model(ms.deep_view()),
{
    let mut r: Vec<String> = Vec::new();
    let mut i: usize = 0;
    while i < ms.len()
        invariant
            i <= ms.len(),
            r@.len() == i,
            forall|j: int| 0 <= j < i ==> r@[j] == ms@[j].id,
        decreases ms.len() - i,
    {
        r.push(ms[i].id.clone());
        i = i + 1;
    }
    proof {
        assert(r.deep_view() =~= ids_model(ms.deep_view()));
    }
    r
}

/// Where the classification picked a running match, its index is in
/// range, it is running, and no earlier match is.
pub proof fn lemma_classify_running(ms: Seq<MatchV>, i: usize)
    requires
        ms.len() <= usize::MAX,
        classify_model(ms) == ContainerClass::Running(i),
    ensures
        i < ms.len(),
        ms[i as int].running,
        forall|k: int| 0 <= k < i ==> !ms[k].running,
{
    lemma_count_running_bounds(ms);
    assert(count_running(ms) == 1);
    lemma_first_running(ms);
    assert(i as int == first_running(ms));
}

/// What an image query for the target amounted to.
#[derive(Clone, Copy, Debug, PartialEq, Eq, Structural)]
pub enum ImageClass {
    /// Exactly one image matched: an ephemeral container can be created.
    OneImage,
    /// No image matched.
    NoImage,
    /// Several images matched.
    ManyImages,
}

/// Classification of an image match count.
pub open spec fn classify_images_model(n: u64) -> ImageClass {
    if n == 1 {
        ImageClass::OneImage
    } else if n == 0 {
        ImageClass::NoImage
    } else {
        ImageClass::ManyImages
    }
}

/// Classify the number of matching images, as `classify_images_model`
/// states.
pub fn classify_images(n: u64) -> (r: ImageClass)
    ensures
        r == classify_images_model(n),
{
    if n == 1 {
        ImageClass::OneImage
    } else if n == 0 {
        ImageClass::NoImage
    } else {
        ImageClass::ManyImages
    }
}

/// The resolved kind of a target string.
#[derive(Clone, Copy, Debug, PartialEq, Eq, Structural)]
pub enum TargetKind {
    RunningContainer,
    StoppedContainer,
    Image,
    Ambiguous,
    NotFound,
}

/// The kind a target resolves to, given both query results.  The image
/// query only counts when no container matched at all.
pub open spec fn resolved_kind_model(ms: Seq<MatchV>, images: u64) -> TargetKind {
    match classify_model(ms) {
        ContainerClass::Running(_) => TargetKind::RunningContainer,
        ContainerClass::Stopped => TargetKind::StoppedContainer,
        ContainerClass::Ambiguous => TargetKind::Ambiguous,
        ContainerClass::NoMatch => match classify_images_model(images) {
            ImageClass::OneImage => TargetKind::Image,
            ImageClass::NoImage => TargetKind::NotFound,
            ImageClass::ManyImages => TargetKind::Ambiguous,
        },
    }
}

/// A target string together with the kind it resolved to, immutable once
/// resolved.
pub struct TargetSpecifier {
    pub raw: String,
    pub kind: TargetKind,
}

/// Resolve a target string from the daemon's two query results, as
/// `resolved_kind_model` states.
pub fn resolve_target(raw: String, ms: &Vec<ContainerMatch>, images: u64) -> (t: TargetSpecifier)
    ensures
        t.raw@ == raw@,
        t.kind == resolved_kind_model(ms.deep_view(), images),
{
    let kind = match classify_containers(ms) {
        ContainerClass::Running(_) => TargetKind::RunningContainer,
        ContainerClass::Stopped => TargetKind::StoppedContainer,
        ContainerClass::Ambiguous => TargetKind::Ambiguous,
        ContainerClass::NoMatch => match classify_images(images) {
            ImageClass::OneImage => TargetKind::Image,
            ImageClass::NoImage => TargetKind::NotFound,
            ImageClass::ManyImages => TargetKind::Ambiguous,
        },
    };
    TargetSpecifier { raw, kind }
}

} // verus!
