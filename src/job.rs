use vstd::prelude::*;

use crate::error::SqipError;
use crate::image::{planned_tasks, TaskView};
use crate::message::{opt_view, DoneView, JobView, SqipCreateMessage, SqipDoneMessage};
use crate::placeholder::{base64_of, is_base64_char, placeholder_from_output, placeholder_of};
use crate::worker::{transition, Phase, WorkerAction, WorkerEvent};

verus! {

/// The mathematical value of the outcome of one image branch, if it ran.
pub open spec fn outcome_view(o: Option<Result<String, SqipError>>) -> Option<
    Result<Seq<char>, SqipError>,
> {
    match o {
        Some(Ok(s)) => Some(Ok(s@)),
        Some(Err(e)) => Some(Err(e)),
        None => None,
    }
}

/// The placeholder of a branch that ran and succeeded.
pub open spec fn produced(o: Option<Result<Seq<char>, SqipError>>) -> Option<Seq<char>> {
    match o {
        Some(Ok(s)) => Some(s),
        _ => None,
    }
}

/// The result of a job from the outcomes of its branches.
///
/// A failed branch fails the whole job, the backdrop's failure taking precedence;
/// otherwise the completion message carries exactly the placeholders produced.
pub open spec fn job_outcome(
    film_id: Seq<char>,
    backdrop: Option<Result<Seq<char>, SqipError>>,
    poster: Option<Result<Seq<char>, SqipError>>,
) -> Result<DoneView, SqipError> {
    match (backdrop, poster) {
        (Some(Err(e)), _) => Err(e),
        (_, Some(Err(e))) => Err(e),
        _ => Ok(DoneView { film_id, poster: produced(poster), backdrop: produced(backdrop) }),
    }
}

/// Puts a film id and the placeholders produced for it into one completion message.
pub fn assemble(film_id: String, backdrop: Option<String>, poster: Option<String>) -> (r:
    SqipDoneMessage)
    ensures
        r@ == (DoneView {
            film_id: film_id@,
            poster: opt_view(poster),
            backdrop: opt_view(backdrop),
        }),
{
    let mut done = SqipDoneMessage::new(film_id);
    done.backdrop_svg_base64encoded = backdrop;
    done.poster_svg_base64encoded = poster;
    done
}

/// Finishes a job from the outcomes of its image branches, one for each path the job gives.
pub fn finish_job(
    job: &SqipCreateMessage,
    backdrop: Option<Result<String, SqipError>>,
    poster: Option<Result<String, SqipError>>,
) -> (r: Result<SqipDoneMessage, SqipError>)
    requires
        backdrop is Some <==> job.backdrop_path is Some,
        poster is Some <==> job.poster_path is Some,
    ensures
        match r {
            Ok(d) => job_outcome(job@.film_id, outcome_view(backdrop), outcome_view(poster))
                == Ok::<DoneView, SqipError>(d@),
            Err(e) => job_outcome(job@.film_id, outcome_view(backdrop), outcome_view(poster))
                == Err::<DoneView, SqipError>(e),
        },
{
    let b = match backdrop {
        Some(Err(e)) => return Err(e),
        Some(Ok(s)) => Some(s),
        None => None,
    };
    let p = match poster {
        Some(Err(e)) => return Err(e),
        Some(Ok(s)) => Some(s),
        None => None,
    };
    Ok(assemble(job.film_id.clone(), b, p))
}

/// The mathematical value of what one image branch brought back from outside: the
/// generator's raw output, or the error that stopped the branch before it.
pub open spec fn raw_view(o: Option<Result<Vec<u8>, SqipError>>) -> Option<
    Result<Seq<u8>, SqipError>,
> {
    match o {
        Some(Ok(b)) => Some(Ok(b@)),
        Some(Err(e)) => Some(Err(e)),
        None => None,
    }
}

/// The outcome of a branch from what it brought back.
pub open spec fn branch_of(o: Option<Result<Seq<u8>, SqipError>>) -> Option<
    Result<Seq<char>, SqipError>,
> {
    match o {
        Some(Ok(b)) => Some(placeholder_of(b)),
        Some(Err(e)) => Some(Err(e)),
        None => None,
    }
}

/// A branch that brought back no raw output too long to encode.
pub open spec fn raw_fits(o: Option<Result<Vec<u8>, SqipError>>) -> bool {
    match o {
        Some(Ok(b)) => b@.len() <= usize::MAX / 2,
        _ => true,
    }
}

/// A branch that failed, if at all, on the job's own account.
pub open spec fn fails_locally(o: Option<Result<Seq<u8>, SqipError>>) -> bool {
    match o {
        Some(Err(e)) => e.spec_is_job_local(),
        _ => true,
    }
}

/// The branch ran and its raw output is a usable placeholder.
pub open spec fn usable(o: Option<Result<Seq<u8>, SqipError>>) -> bool {
    match o {
        Some(Ok(b)) => placeholder_of(b) is Ok,
        _ => false,
    }
}

/// The placeholder that a usable branch yields: non-empty base64 text of its output.
pub open spec fn well_encoded(p: Option<Seq<char>>, o: Option<Result<Seq<u8>, SqipError>>) -> bool {
    match (p, o) {
        (Some(s), Some(Ok(b))) => s == base64_of(b) && s.len() > 0 && s.len() == 4 * ((b.len()
            + 2) / 3) && forall|i: int| 0 <= i < s.len() ==> is_base64_char(#[trigger] s[i]),
        _ => false,
    }
}

fn branch(raw: Option<Result<Vec<u8>, SqipError>>) -> (r: Option<Result<String, SqipError>>)
    requires
        raw_fits(raw),
    ensures
        outcome_view(r) == branch_of(raw_view(raw)),
        match r {
            Some(Ok(s)) => well_encoded(Some(s@), raw_view(raw)),
            _ => true,
        },
{
    match raw {
        Some(Ok(b)) => Some(placeholder_from_output(b.as_slice())),
        Some(Err(e)) => Some(Err(e)),
        None => None,
    }
}

/// Completes a job from what each of its image branches brought back: the generator's
/// raw output, or the error that stopped the branch before the generator ran.
///
/// A job that gives exactly one path, whose output is usable, completes with exactly
/// that placeholder under its own film id. A branch that failed fails the job with its
/// error, which is job-local whenever the branches' errors are.
pub fn complete_job(
    job: &SqipCreateMessage,
    backdrop: Option<Result<Vec<u8>, SqipError>>,
    poster: Option<Result<Vec<u8>, SqipError>>,
) -> (r: Result<SqipDoneMessage, SqipError>)
    requires
        backdrop is Some <==> job.backdrop_path is Some,
        poster is Some <==> job.poster_path is Some,
        raw_fits(backdrop),
        raw_fits(poster),
    ensures
        match r {
            Ok(d) => job_outcome(
                job@.film_id,
                branch_of(raw_view(backdrop)),
                branch_of(raw_view(poster)),
            ) == Ok::<DoneView, SqipError>(d@) && (d@.backdrop is Some ==> well_encoded(
                d@.backdrop,
                raw_view(backdrop),
            )) && (d@.poster is Some ==> well_encoded(d@.poster, raw_view(poster))),
            Err(e) => job_outcome(
                job@.film_id,
                branch_of(raw_view(backdrop)),
                branch_of(raw_view(poster)),
            ) == Err::<DoneView, SqipError>(e) && (fails_locally(raw_view(backdrop))
                && fails_locally(raw_view(poster)) ==> e.spec_is_job_local()),
        },
        job.backdrop_path is Some && job.poster_path is None && usable(raw_view(backdrop)) ==> (
        r matches Ok(d) && d@.film_id == job@.film_id && d@.poster is None && well_encoded(
            d@.backdrop,
            raw_view(backdrop),
        )),
        job.poster_path is Some && job.backdrop_path is None && usable(raw_view(poster)) ==> (
        r matches Ok(d) && d@.film_id == job@.film_id && d@.backdrop is None && well_encoded(
            d@.poster,
            raw_view(poster),
        )),
        backdrop matches Some(Err(e)) ==> r == Err::<SqipDoneMessage, SqipError>(e),
        !(branch_of(raw_view(backdrop)) matches Some(Err(_))) ==> (poster matches Some(Err(e)) ==> r == Err::<
            SqipDoneMessage,
            SqipError,
        >(e)),
{
    let b = branch(backdrop);
    let p = branch(poster);
    finish_job(job, b, p)
}

/// An image that cannot be fetched fails its job with a job-local error; the worker
/// then hands the delivery back unacknowledged, publishes nothing, and is idle again,
/// ready for the next delivery.
pub proof fn lemma_unreachable_image_releases(
    job: JobView,
    backdrop: Option<Result<Seq<u8>, SqipError>>,
    poster: Option<Result<Seq<u8>, SqipError>>,
    tag: u64,
    next: u64,
)
    requires
        backdrop == Some(Err::<Seq<u8>, SqipError>(SqipError::Retrieval)) || poster == Some(
            Err::<Seq<u8>, SqipError>(SqipError::Retrieval),
        ),
        fails_locally(backdrop),
        fails_locally(poster),
    ensures
        job_outcome(job.film_id, branch_of(backdrop), branch_of(poster)) is Err,
        ({
            let e = job_outcome(job.film_id, branch_of(backdrop), branch_of(poster))->Err_0;
            &&& e.spec_is_job_local()
            &&& transition(Phase::Processing { tag }, WorkerEvent::JobFailed { error: e }) == (
                Phase::Idle,
                WorkerAction::Release { tag },
            )
            &&& transition(Phase::Idle, WorkerEvent::Delivered { tag: next, well_formed: true })
                == (Phase::Processing { tag: next }, WorkerAction::Process { tag: next })
        }),
{
}

/// A job that gives no image path fetches nothing and completes with no placeholder,
/// under its own film id.
pub proof fn lemma_job_without_images(job: JobView)
    requires
        job.valid(),
        job.backdrop_path is None,
        job.poster_path is None,
    ensures
        planned_tasks(job) == Some(Seq::<TaskView>::empty()),
        job_outcome(job.film_id, None, None) == Ok::<DoneView, SqipError>(
            DoneView { film_id: job.film_id, poster: None, backdrop: None },
        ),
{
    assert(Seq::<TaskView>::empty() + Seq::<TaskView>::empty() =~= Seq::<TaskView>::empty());
}

/// A job that gives exactly one image path, whose generator output is usable,
/// completes with exactly that placeholder: the base64 encoding of the non-empty
/// output, under the job's film id.
pub proof fn lemma_job_with_one_image(job: JobView, out: Seq<u8>)
    requires
        job.valid(),
        job.backdrop_path is Some != job.poster_path is Some,
        placeholder_of(out) is Ok,
    ensures
        out.len() > 0,
        ({
            let branch = Some(placeholder_of(out));
            let b = if job.backdrop_path is Some { branch } else { None };
            let p = if job.poster_path is Some { branch } else { None };
            job_outcome(job.film_id, b, p) == Ok::<DoneView, SqipError>(
                DoneView {
                    film_id: job.film_id,
                    poster: if job.poster_path is Some { Some(base64_of(out)) } else { None },
                    backdrop: if job.backdrop_path is Some { Some(base64_of(out)) } else { None },
                },
            )
        }),
{
}

} // verus!
