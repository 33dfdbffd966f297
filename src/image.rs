use vstd::prelude::*;

use crate::error::SqipError;
use crate::message::{JobView, SqipCreateMessage};

verus! {

/// Which of a film's two images a task is about.
#[derive(Debug, Clone, Copy, PartialEq, Eq, Structural)]
pub enum ImageKind {
    /// The wide background image, fetched at large resolution.
    Backdrop,
    /// The poster, fetched at medium resolution.
    Poster,
}

/// One image to fetch for a job: where it comes from and the file it is stored in.
#[derive(Debug)]
pub struct ImageTask {
    pub kind: ImageKind,
    pub url: String,
    pub file_name: String,
}

/// The mathematical value of an image task.
pub struct TaskView {
    pub kind: ImageKind,
    pub url: Seq<char>,
    pub file_name: Seq<char>,
}

impl View for ImageTask {
    type V = TaskView;

    open spec fn view(&self) -> TaskView {
        TaskView { kind: self.kind, url: self.url@, file_name: self.file_name@ }
    }
}

/// The last component of a path, as `std::path::Path::file_name` gives it.
pub uninterp spec fn path_file_name(p: Seq<char>) -> Option<Seq<char>>;

/// Relies on std::path::Path::file_name: the final component of the path, if it has one.
#[verifier::external_body]
fn file_name_of(p: &str) -> (r: Option<String>)
    ensures
        match r {
            Some(s) => path_file_name(p@) == Some(s@),
            None => path_file_name(p@) is None,
        },
{
    std::path::Path::new(p).file_name().map(|f| f.to_string_lossy().into_owned())
}

pub open spec fn base_url(kind: ImageKind) -> Seq<char> {
    match kind {
        ImageKind::Backdrop => "https://image.tmdb.org/t/p/w1280"@,
        ImageKind::Poster => "https://image.tmdb.org/t/p/w500"@,
    }
}

pub open spec fn file_tag(kind: ImageKind) -> Seq<char> {
    match kind {
        ImageKind::Backdrop => "-1280-backdrop-"@,
        ImageKind::Poster => "-500-poster-"@,
    }
}

/// The local file name for an image of a film whose own file name is `name`.
pub open spec fn spec_file_name(film_id: Seq<char>, kind: ImageKind, name: Seq<char>) -> Seq<char> {
    film_id + file_tag(kind) + name
}

/// The task for one image path, if the path has a file name.
pub open spec fn task_of(film_id: Seq<char>, kind: ImageKind, path: Seq<char>) -> Option<TaskView> {
    match path_file_name(path) {
        Some(name) => Some(
            TaskView {
                kind,
                url: base_url(kind) + path,
                file_name: spec_file_name(film_id, kind, name),
            },
        ),
        None => None,
    }
}

/// The tasks for an optional path: none when it is absent.
pub open spec fn tasks_of(film_id: Seq<char>, kind: ImageKind, path: Option<Seq<char>>) -> Option<
    Seq<TaskView>,
> {
    match path {
        None => Some(Seq::empty()),
        Some(p) => match task_of(film_id, kind, p) {
            Some(t) => Some(seq![t]),
            None => None,
        },
    }
}

/// The tasks of a job, the backdrop first; `None` when a given path names no file.
pub open spec fn planned_tasks(job: JobView) -> Option<Seq<TaskView>> {
    match (
        tasks_of(job.film_id, ImageKind::Backdrop, job.backdrop_path),
        tasks_of(job.film_id, ImageKind::Poster, job.poster_path),
    ) {
        (Some(b), Some(p)) => Some(b + p),
        _ => None,
    }
}

/// The address an image is fetched from: the base address for its kind, then the path.
pub fn image_url(kind: ImageKind, path: &str) -> (r: String)
    ensures
        r@ == base_url(kind) + path@,
{
    let base = match kind {
        ImageKind::Backdrop => String::from_str("https://image.tmdb.org/t/p/w1280"),
        ImageKind::Poster => String::from_str("https://image.tmdb.org/t/p/w500"),
    };
    base.concat(path)
}

/// The name of the file that an image of `film_id` with file name `name` is stored in.
pub fn image_file_name(film_id: &str, kind: ImageKind, name: &str) -> (r: String)
    ensures
        r@ == spec_file_name(film_id@, kind, name@),
{
    let s = String::from_str(film_id);
    let tag = match kind {
        ImageKind::Backdrop => "-1280-backdrop-",
        ImageKind::Poster => "-500-poster-",
    };
    s.concat(tag).concat(name)
}

/// The task for one image path; `None` when the path has no final file name.
pub fn image_task(film_id: &str, kind: ImageKind, path: &str) -> (r: Option<ImageTask>)
    ensures
        match r {
            Some(t) => task_of(film_id@, kind, path@) == Some(t@),
            None => task_of(film_id@, kind, path@) is None,
        },
{
    match file_name_of(path) {
        Some(name) => {
            let url = image_url(kind, path);
            let file_name = image_file_name(film_id, kind, name.as_str());
            Some(ImageTask { kind, url, file_name })
        },
        None => None,
    }
}

/// The images to fetch for a job: the backdrop first, then the poster, each only
/// when its path is given. A path without a file name is a retrieval failure.
pub fn plan_job(job: &SqipCreateMessage) -> (r: Result<Vec<ImageTask>, SqipError>)
    ensures
        match r {
            Ok(ts) => planned_tasks(job@) == Some(ts@.map_values(|t: ImageTask| t@)),
            Err(e) => planned_tasks(job@) is None && e == SqipError::Retrieval,
        },
{
    let mut tasks: Vec<ImageTask> = Vec::new();
    let id = job.film_id.as_str();
    match &job.backdrop_path {
        Some(p) => match image_task(id, ImageKind::Backdrop, p.as_str()) {
            Some(t) => tasks.push(t),
            None => return Err(SqipError::Retrieval),
        },
        None => {},
    }
    let ghost after_backdrop = tasks@.map_values(|t: ImageTask| t@);
    assert(tasks_of(job@.film_id, ImageKind::Backdrop, job@.backdrop_path) == Some(after_backdrop));
    match &job.poster_path {
        Some(p) => match image_task(id, ImageKind::Poster, p.as_str()) {
            Some(t) => tasks.push(t),
            None => return Err(SqipError::Retrieval),
        },
        None => {},
    }
    assert(tasks@.map_values(|t: ImageTask| t@) =~= after_backdrop + tasks_of(
        job@.film_id,
        ImageKind::Poster,
        job@.poster_path,
    ).unwrap());
    Ok(tasks)
}

} // verus!
