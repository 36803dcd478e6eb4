//! Routes and the scores submitted on them.

use vstd::prelude::*;
use crate::error::ApiError;
use crate::guard::{mutation_gate, require_owner};
use crate::listing::{in_order, is_newer, kept_by, newest_first, rank_lt, select_in_order, Ranked, Selector};
use crate::models::route::{CreateRoute, Route, RouteView, UpdateRoute, UpdateRouteView};
use crate::models::score::{CreateScore, Score};
use crate::token::Claims;

verus! {

/// The filters of a route listing; a filter that is `None` lets every route
/// through.
#[derive(Clone, Copy, Debug, PartialEq, Eq)]
pub struct RouteQuery {
    pub user_id: Option<i32>,
    pub is_public: Option<bool>,
}

impl Selector<Route> for RouteQuery {
    open spec fn keeps(&self, row: &Route) -> bool {
        &&& (self.user_id matches Some(owner) ==> row.user_id == owner)
        &&& (self.is_public matches Some(public) ==> row.is_public == public)
    }

    fn test(&self, row: &Route) -> (kept: bool) {
        let owner_fits = match self.user_id {
            Some(owner) => row.user_id == owner,
            None => true,
        };
        let public_fits = match self.is_public {
            Some(public) => row.is_public == public,
            None => true,
        };
        owner_fits && public_fits
    }
}

impl Ranked for Route {
    /// Newest first; among routes of one instant, the higher id first.
    open spec fn rank(&self) -> (int, int) {
        (newest_first(self.created_at), -(self.id as int))
    }

    fn goes_before(&self, other: &Self) -> (earlier: bool) {
        if is_newer(self.created_at, other.created_at) {
            true
        } else if is_newer(other.created_at, self.created_at) {
            false
        } else {
            self.id > other.id
        }
    }
}

/// The route that the store holds once it has given the new route the id
/// `id` and stamped it with `stamped_at`: owned by the caller, with the
/// fields of the request.
pub open spec fn created_route(id: i32, stamped_at: Option<i64>, owner: i32, request: CreateRoute) -> RouteView {
    RouteView {
        id,
        user_id: owner,
        name: request@.name,
        description: request@.description,
        is_public: request.is_public,
        path_data: request.path_data,
        distance_meters: request.distance_meters,
        created_at: stamped_at,
        updated_at: stamped_at,
    }
}

/// Creates a route for the caller.
pub fn create_route(id: i32, stamped_at: Option<i64>, claims: &Claims, new_route: CreateRoute) -> (route: Route)
    ensures
        route@ == created_route(id, stamped_at, claims.user_id, new_route),
{
    Route {
        id,
        user_id: claims.user_id,
        name: new_route.name,
        description: new_route.description,
        is_public: new_route.is_public,
        path_data: new_route.path_data,
        distance_meters: new_route.distance_meters,
        created_at: stamped_at,
        updated_at: stamped_at,
    }
}

/// The routes that pass both filters, newest first.
pub fn get_routes(routes: Vec<Route>, params: RouteQuery) -> (listed: Vec<Route>)
    ensures
        listed@.to_multiset() == routes@.to_multiset().filter(kept_by::<Route, RouteQuery>(params)),
        in_order(listed@),
{
    select_in_order(routes, &params)
}

/// The route that a lookup by id gave, or `NotFound`.
pub fn get_route(found: Option<Route>) -> (answer: Result<Route, ApiError>)
    ensures
        answer == match found {
            Some(route) => Ok::<Route, ApiError>(route),
            None => Err::<Route, ApiError>(ApiError::NotFound),
        },
{
    match found {
        Some(route) => Ok(route),
        None => Err(ApiError::NotFound),
    }
}

/// The routes of one user, newest first.
pub fn get_user_routes(routes: Vec<Route>, user_id: i32) -> (listed: Vec<Route>)
    ensures
        listed@.to_multiset() == routes@.to_multiset().filter(
            kept_by::<Route, RouteQuery>(RouteQuery { user_id: Some(user_id), is_public: None }),
        ),
        in_order(listed@),
{
    select_in_order(routes, &RouteQuery { user_id: Some(user_id), is_public: None })
}

/// The public routes, newest first.
pub fn get_public_routes(routes: Vec<Route>) -> (listed: Vec<Route>)
    ensures
        listed@.to_multiset() == routes@.to_multiset().filter(
            kept_by::<Route, RouteQuery>(RouteQuery { user_id: None, is_public: Some(true) }),
        ),
        in_order(listed@),
{
    select_in_order(routes, &RouteQuery { user_id: None, is_public: Some(true) })
}

/// A stored route after a patch at the instant `now`: each field that the
/// patch sets takes the new value, each other field keeps the stored one,
/// and `updated_at` is `now`. Id, owner and `created_at` never change.
pub open spec fn patched_route(stored: RouteView, patch: UpdateRouteView, now: i64) -> RouteView {
    RouteView {
        id: stored.id,
        user_id: stored.user_id,
        name: match patch.name {
            Some(name) => name,
            None => stored.name,
        },
        description: match patch.description {
            Some(text) => Some(text),
            None => stored.description,
        },
        is_public: match patch.is_public {
            Some(public) => public,
            None => stored.is_public,
        },
        path_data: match patch.path_data {
            Some(path) => path,
            None => stored.path_data,
        },
        distance_meters: match patch.distance_meters {
            Some(meters) => Some(meters),
            None => stored.distance_meters,
        },
        created_at: stored.created_at,
        updated_at: Some(now),
    }
}

/// The owner of a looked-up route.
pub open spec fn owner_of(found: Option<Route>) -> Option<i32> {
    match found {
        Some(route) => Some(route.user_id),
        None => None,
    }
}

/// Updates a route on behalf of the caller.
///
/// `NotFound` where the lookup gave no route, `Forbidden` where the route
/// belongs to somebody else; for the owner, always the patched route.
pub fn update_route(found: Option<Route>, claims: &Claims, update: UpdateRoute, now: i64) -> (answer:
    Result<Route, ApiError>)
    ensures
        match answer {
            Ok(route) => mutation_gate(owner_of(found), claims.user_id) is Ok && route@
                == patched_route(found->0@, update@, now),
            Err(e) => mutation_gate(owner_of(found), claims.user_id) == Err::<(), ApiError>(e),
        },
{
    let stored = match found {
        Some(route) => route,
        None => {
            return Err(ApiError::NotFound);
        },
    };
    match require_owner(Some(stored.user_id), claims.user_id) {
        Ok(()) => {},
        Err(e) => {
            return Err(e);
        },
    }
    let Route {
        id,
        user_id,
        name,
        description,
        is_public,
        path_data,
        distance_meters,
        created_at,
        updated_at: _,
    } = stored;
    Ok(
        Route {
            id,
            user_id,
            name: match update.name {
                Some(new_name) => new_name,
                None => name,
            },
            description: match update.description {
                Some(text) => Some(text),
                None => description,
            },
            is_public: match update.is_public {
                Some(public) => public,
                None => is_public,
            },
            path_data: match update.path_data {
                Some(path) => path,
                None => path_data,
            },
            distance_meters: match update.distance_meters {
                Some(meters) => Some(meters),
                None => distance_meters,
            },
            created_at,
            updated_at: Some(now),
        },
    )
}

/// Decides whether the caller may delete a route, from the owner that the
/// lookup gave: `NotFound` without a route, `Forbidden` for somebody else's,
/// and leave to delete for the owner.
pub fn delete_route(owner: Option<i32>, claims: &Claims) -> (answer: Result<(), ApiError>)
    ensures
        answer == mutation_gate(owner, claims.user_id),
{
    require_owner(owner, claims.user_id)
}

/// The score that the store holds once it has given the run the id `id`
/// and stamped it with `stamped_at`.
pub open spec fn stored_score(
    id: i32,
    stamped_at: Option<i64>,
    user_id: i32,
    route_id: i32,
    run: CreateScore,
) -> Score {
    Score {
        id,
        route_id,
        user_id,
        time_seconds: run.time_seconds,
        max_speed_kmh: run.max_speed_kmh,
        avg_speed_kmh: run.avg_speed_kmh,
        max_g_force: run.max_g_force,
        max_inclination_degrees: run.max_inclination_degrees,
        max_sound_db: run.max_sound_db,
        created_at: stamped_at,
    }
}

/// Submits a run of the caller on a route: `NotFound` where the route does
/// not exist, the score to store otherwise.
pub fn submit_score(
    route_exists: bool,
    id: i32,
    stamped_at: Option<i64>,
    claims: &Claims,
    route_id: i32,
    new_score: CreateScore,
) -> (answer: Result<Score, ApiError>)
    ensures
        answer == if route_exists {
            Ok::<Score, ApiError>(stored_score(id, stamped_at, claims.user_id, route_id, new_score))
        } else {
            Err::<Score, ApiError>(ApiError::NotFound)
        },
{
    if !route_exists {
        return Err(ApiError::NotFound);
    }
    Ok(
        Score {
            id,
            route_id,
            user_id: claims.user_id,
            time_seconds: new_score.time_seconds,
            max_speed_kmh: new_score.max_speed_kmh,
            avg_speed_kmh: new_score.avg_speed_kmh,
            max_g_force: new_score.max_g_force,
            max_inclination_degrees: new_score.max_inclination_degrees,
            max_sound_db: new_score.max_sound_db,
            created_at: stamped_at,
        },
    )
}

/// The guard on routes: for a route of user `owner_id`, a caller with
/// another id is always answered `Forbidden`, and the owner always gets the
/// patched route.
pub proof fn route_mutation_is_owner_only(stored: Route, caller_id: i32)
    ensures
        stored.user_id != caller_id ==> mutation_gate(owner_of(Some(stored)), caller_id) == Err::<
            (),
            ApiError,
        >(ApiError::Forbidden),
        stored.user_id == caller_id ==> mutation_gate(owner_of(Some(stored)), caller_id) is Ok,
{
}

} // verus!
