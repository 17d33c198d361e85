//! One drawing session on a compositing surface.

use vstd::prelude::*;
use crate::geometry::{Point, Rect};

verus! {

/// What a drawing session returns once it was begun: the failure of ending
/// it where ending failed, else what the drawing itself returned.
pub open spec fn spec_draw_result<E>(drawn: Result<(), E>, ended: Result<(), E>) -> Result<
    (),
    E,
> {
    match ended {
        Err(error) => Err(error),
        Ok(_) => drawn,
    }
}

/// What a drawing session on `update_rect` returns, given what beginning it
/// returned. Where beginning failed, that failure; else the drawing ran on
/// the object and at the offset that beginning gave, the session was ended,
/// and the two results combine as `spec_draw_result` says.
pub open spec fn draw_outcome<T, E, F, N>(
    func: F,
    end: N,
    began: Result<(T, Point), E>,
    r: Result<(), E>,
) -> bool where F: FnOnce(&T, Point) -> Result<(), E>, N: FnOnce() -> Result<(), E> {
    match began {
        Err(error) => r == Err::<(), E>(error),
        Ok(target) => exists|drawn: Result<(), E>, ended: Result<(), E>|
            {
                &&& #[trigger] func.ensures((&target.0, target.1), drawn)
                &&& #[trigger] end.ensures((), ended)
                &&& r == spec_draw_result(drawn, ended)
            },
    }
}

/// Combines the result of drawing with the result of ending the session.
pub fn draw_result<E>(drawn: Result<(), E>, ended: Result<(), E>) -> (r: Result<(), E>)
    ensures
        r == spec_draw_result(drawn, ended),
        r.is_ok() <==> drawn.is_ok() && ended.is_ok(),
{
    match ended {
        Err(error) => Err(error),
        Ok(_) => drawn,
    }
}

/// Runs one drawing session on a surface.
///
/// `begin` opens the session on `update_rect` (the whole surface where it is
/// `None`) and gives the object to draw into and the offset to draw at;
/// `func` draws; `end` closes the session. A session that was begun is
/// always ended, whatever `func` returned.
pub fn draw_to_surface<T, E, B, F, N>(update_rect: Option<Rect>, begin: B, func: F, end: N) -> (r:
    Result<(), E>) where
    B: FnOnce(Option<Rect>) -> Result<(T, Point), E>,
    F: FnOnce(&T, Point) -> Result<(), E>,
    N: FnOnce() -> Result<(), E>,

    requires
        begin.requires((update_rect,)),
        forall|target: &T, offset: Point| #[trigger] func.requires((target, offset)),
        end.requires(()),
    ensures
        exists|began: Result<(T, Point), E>|
            {
                &&& #[trigger] begin.ensures((update_rect,), began)
                &&& draw_outcome(func, end, began, r)
            },
{
    match begin(update_rect) {
        Err(error) => Err(error),
        Ok((update_object, point)) => {
            let drawn = func(&update_object, point);
            let ended = end();
            draw_result(drawn, ended)
        },
    }
}

} // verus!
