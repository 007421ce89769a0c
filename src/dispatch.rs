//! The batch: every selected file crossed with every enabled target format.
use vstd::prelude::*;
use crate::format::{str_equal, ImageFormatExt};

verus! {

/// A file offered for conversion, its sniffed format, and whether it is selected.
pub struct SelectedImage {
    pub path: String,
    pub format: ImageFormatExt,
    pub included: bool,
}

/// One conversion: the file at index `source` of the selection, from its
/// format to `target_format`.
#[derive(Debug, Clone, Copy, PartialEq, Eq, Structural)]
pub struct ConversionJob {
    pub source: usize,
    pub source_format: ImageFormatExt,
    pub target_format: ImageFormatExt,
}

/// The format and selection flag of each file.
pub open spec fn selection_view(images: Seq<SelectedImage>) -> Seq<(ImageFormatExt, bool)> {
    images.map_values(|s: SelectedImage| (s.format, s.included))
}

/// The jobs for the file at index `i` of format `f`: one per enabled target
/// of another format, in the order of `targets`.
pub open spec fn jobs_for(i: int, f: ImageFormatExt, targets: Seq<(ImageFormatExt, bool)>) -> Seq<ConversionJob>
    decreases targets.len(),
{
    if targets.len() == 0 {
        seq![]
    } else {
        let prev = jobs_for(i, f, targets.drop_last());
        let t = targets.last();
        if t.1 && t.0 != f {
            prev.push(ConversionJob { source: i as usize, source_format: f, target_format: t.0 })
        } else {
            prev
        }
    }
}

/// The jobs of a batch: for each selected file in order, its jobs.
pub open spec fn planned_jobs(sel: Seq<(ImageFormatExt, bool)>, targets: Seq<(ImageFormatExt, bool)>) -> Seq<ConversionJob>
    decreases sel.len(),
{
    if sel.len() == 0 {
        seq![]
    } else {
        let k = sel.len() - 1;
        let prev = planned_jobs(sel.drop_last(), targets);
        if sel.last().1 {
            prev + jobs_for(k, sel.last().0, targets)
        } else {
            prev
        }
    }
}

/// What a job asks for was asked for: its file is selected and of its source
/// format, its target enabled and of another format.
pub open spec fn job_is_requested(j: ConversionJob, sel: Seq<(ImageFormatExt, bool)>, targets: Seq<(ImageFormatExt, bool)>) -> bool {
    &&& j.source < sel.len()
    &&& sel[j.source as int] == (j.source_format, true)
    &&& j.source_format != j.target_format
    &&& exists|t: int| 0 <= t < targets.len() && targets[t] == (j.target_format, true)
}

proof fn lemma_jobs_for_requested(i: int, f: ImageFormatExt, sel: Seq<(ImageFormatExt, bool)>, targets: Seq<(ImageFormatExt, bool)>, all: Seq<(ImageFormatExt, bool)>)
    requires
        0 <= i < sel.len(),
        sel[i] == (f, true),
        i <= usize::MAX,
        targets.len() <= all.len(),
        targets =~= all.subrange(0, targets.len() as int),
    ensures
        forall|k: int| 0 <= k < jobs_for(i, f, targets).len() ==> job_is_requested(#[trigger] jobs_for(i, f, targets)[k], sel, all),
    decreases targets.len(),
{
    if targets.len() > 0 {
        let prev = targets.drop_last();
        assert(prev =~= all.subrange(0, prev.len() as int));
        lemma_jobs_for_requested(i, f, sel, prev, all);
        let t = targets.last();
        let js = jobs_for(i, f, targets);
        let ps = jobs_for(i, f, prev);
        if t.1 && t.0 != f {
            let j = ConversionJob { source: i as usize, source_format: f, target_format: t.0 };
            assert(all[targets.len() - 1] == t);
            assert(job_is_requested(j, sel, all));
            assert forall|k: int| 0 <= k < js.len() implies job_is_requested(#[trigger] js[k], sel, all) by {
                if k < ps.len() {
                    assert(js[k] == ps[k]);
                }
            }
        }
    }
}

/// Every planned job was requested, and none converts a file to its own
/// format.
pub proof fn lemma_planned_jobs_requested(sel: Seq<(ImageFormatExt, bool)>, targets: Seq<(ImageFormatExt, bool)>)
    requires
        sel.len() <= usize::MAX + 1,
    ensures
        forall|k: int| 0 <= k < planned_jobs(sel, targets).len()
            ==> job_is_requested(#[trigger] planned_jobs(sel, targets)[k], sel, targets),
        forall|k: int| 0 <= k < planned_jobs(sel, targets).len()
            ==> (#[trigger] planned_jobs(sel, targets)[k]).source_format != planned_jobs(sel, targets)[k].target_format,
    decreases sel.len(),
{
    if sel.len() > 0 {
        let prev = sel.drop_last();
        lemma_planned_jobs_requested(prev, targets);
        let k = sel.len() - 1;
        let p = planned_jobs(prev, targets);
        assert forall|m: int| 0 <= m < p.len() implies job_is_requested(#[trigger] p[m], sel, targets) by {
            assert(job_is_requested(p[m], prev, targets));
            assert(sel[p[m].source as int] == prev[p[m].source as int]);
        }
        if sel.last().1 {
            lemma_jobs_for_requested(k, sel.last().0, sel, targets, targets);
        }
    }
}

/// No format is listed twice: a target set maps each format to one flag.
pub open spec fn distinct_targets(targets: Seq<(ImageFormatExt, bool)>) -> bool {
    forall|i: int, j: int| 0 <= i < j < targets.len() ==> (#[trigger] targets[i]).0 != (#[trigger] targets[j]).0
}

/// No path is listed twice: a selection maps each path to one entry.
pub open spec fn distinct_paths(images: Seq<SelectedImage>) -> bool {
    forall|i: int, j: int| 0 <= i < j < images.len() ==> (#[trigger] images[i]).path@ != (#[trigger] images[j]).path@
}

/// Whether every format of the target list is distinct.
pub fn targets_are_distinct(targets: &Vec<(ImageFormatExt, bool)>) -> (r: bool)
    ensures
        r == distinct_targets(targets@),
{
    let n = targets.len();
    let mut j: usize = 0;
    while j < n
        invariant
            n == targets@.len(),
            j <= n,
            forall|a: int, b: int| 0 <= a < b < j ==> (#[trigger] targets@[a]).0 != (#[trigger] targets@[b]).0,
        decreases n - j,
    {
        let mut i: usize = 0;
        while i < j
            invariant
                n == targets@.len(),
                i <= j < n,
                forall|a: int| 0 <= a < i ==> (#[trigger] targets@[a]).0 != targets@[j as int].0,
            decreases j - i,
        {
            if targets[i].0 == targets[j].0 {
                return false;
            }
            i = i + 1;
        }
        j = j + 1;
    }
    true
}

/// Whether every path of the selection is distinct.
pub fn paths_are_distinct(images: &Vec<SelectedImage>) -> (r: bool)
    ensures
        r == distinct_paths(images@),
{
    let n = images.len();
    let mut j: usize = 0;
    while j < n
        invariant
            n == images@.len(),
            j <= n,
            forall|a: int, b: int| 0 <= a < b < j ==> (#[trigger] images@[a]).path@ != (#[trigger] images@[b]).path@,
        decreases n - j,
    {
        let mut i: usize = 0;
        while i < j
            invariant
                n == images@.len(),
                i <= j < n,
                forall|a: int| 0 <= a < i ==> (#[trigger] images@[a]).path@ != images@[j as int].path@,
            decreases j - i,
        {
            if str_equal(images[i].path.as_str(), images[j].path.as_str()) {
                return false;
            }
            i = i + 1;
        }
        j = j + 1;
    }
    true
}

/// The jobs of a batch, in order: for each selected file, one per enabled
/// target format other than the file's own. Same-format pairs are skipped
/// without any job.
pub fn plan_jobs(images: &Vec<SelectedImage>, targets: &Vec<(ImageFormatExt, bool)>) -> (r: Vec<ConversionJob>)
    ensures
        r@ == planned_jobs(selection_view(images@), targets@),
        forall|k: int| 0 <= k < r@.len() ==> job_is_requested(#[trigger] r@[k], selection_view(images@), targets@),
        forall|k: int| 0 <= k < r@.len() ==> (#[trigger] r@[k]).source_format != r@[k].target_format,
{
    let ghost sel = selection_view(images@);
    let mut out: Vec<ConversionJob> = Vec::new();
    let mut i: usize = 0;
    while i < images.len()
        invariant
            sel == selection_view(images@),
            i <= images@.len(),
            out@ == planned_jobs(sel.subrange(0, i as int), targets@),
        decreases images@.len() - i,
    {
        let img = &images[i];
        let ghost before = out@;
        if img.included {
            let mut t: usize = 0;
            while t < targets.len()
                invariant
                    sel == selection_view(images@),
                    i < images@.len(),
                    img == images@[i as int],
                    img.included,
                    t <= targets@.len(),
                    out@ == before + jobs_for(i as int, img.format, targets@.subrange(0, t as int)),
                decreases targets@.len() - t,
            {
                let (f, enabled) = targets[t];
                proof {
                    assert(targets@.subrange(0, t + 1).drop_last() =~= targets@.subrange(0, t as int));
                }
                if enabled && f != img.format {
                    out.push(ConversionJob { source: i, source_format: img.format, target_format: f });
                }
                t = t + 1;
                proof {
                    assert(out@ =~= before + jobs_for(i as int, img.format, targets@.subrange(0, t as int)));
                }
            }
            assert(targets@.subrange(0, targets@.len() as int) =~= targets@);
        }
        proof {
            assert(sel.subrange(0, i + 1).drop_last() =~= sel.subrange(0, i as int));
            assert(sel[i as int] == (img.format, img.included));
        }
        i = i + 1;
    }
    assert(sel.subrange(0, images@.len() as int) =~= sel);
    proof { lemma_planned_jobs_requested(sel, targets@); }
    out
}

} // verus!
