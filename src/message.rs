use vstd::prelude::*;

verus! {

/// A request to build placeholders for the images of one film.
#[derive(Debug)]
pub struct SqipCreateMessage {
    pub film_id: String,
    pub poster_path: Option<String>,
    pub backdrop_path: Option<String>,
}

/// The completion message for one job.
#[derive(Debug)]
pub struct SqipDoneMessage {
    pub film_id: String,
    pub poster_svg_base64encoded: Option<String>,
    pub backdrop_svg_base64encoded: Option<String>,
}

/// The mathematical value of a job request.
pub struct JobView {
    pub film_id: Seq<char>,
    pub poster_path: Option<Seq<char>>,
    pub backdrop_path: Option<Seq<char>>,
}

/// The mathematical value of a completion message.
pub struct DoneView {
    pub film_id: Seq<char>,
    pub poster: Option<Seq<char>>,
    pub backdrop: Option<Seq<char>>,
}

pub open spec fn opt_view(o: Option<String>) -> Option<Seq<char>> {
    match o {
        Some(s) => Some(s@),
        None => None,
    }
}

/// A present path must be non-empty.
pub open spec fn path_ok(p: Option<Seq<char>>) -> bool {
    match p {
        Some(s) => s.len() > 0,
        None => true,
    }
}

impl JobView {
    /// A job names its film, and each image path it gives is non-empty.
    pub open spec fn valid(self) -> bool {
        self.film_id.len() > 0 && path_ok(self.poster_path) && path_ok(self.backdrop_path)
    }
}

impl View for SqipCreateMessage {
    type V = JobView;

    open spec fn view(&self) -> JobView {
        JobView {
            film_id: self.film_id@,
            poster_path: opt_view(self.poster_path),
            backdrop_path: opt_view(self.backdrop_path),
        }
    }
}

impl View for SqipDoneMessage {
    type V = DoneView;

    open spec fn view(&self) -> DoneView {
        DoneView {
            film_id: self.film_id@,
            poster: opt_view(self.poster_svg_base64encoded),
            backdrop: opt_view(self.backdrop_svg_base64encoded),
        }
    }
}

fn path_is_usable(p: &Option<String>) -> (r: bool)
    ensures
        r == path_ok(opt_view(*p)),
{
    match p {
        Some(s) => !s.as_str().is_empty(),
        None => true,
    }
}

impl SqipCreateMessage {
    /// Checks that the film id is non-empty and that every given path is non-empty.
    pub fn is_valid(&self) -> (r: bool)
        ensures
            r == self@.valid(),
    {
        !self.film_id.as_str().is_empty() && path_is_usable(&self.poster_path)
            && path_is_usable(&self.backdrop_path)
    }
}

impl SqipDoneMessage {
    /// A completion message for `film_id` that carries no placeholder yet.
    pub fn new(film_id: String) -> (r: Self)
        ensures
            r@ == (DoneView { film_id: film_id@, poster: None, backdrop: None }),
    {
        Self { film_id, poster_svg_base64encoded: None, backdrop_svg_base64encoded: None }
    }
}

} // verus!
