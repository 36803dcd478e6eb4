//! Recorded routes and the patches applied to them.

use vstd::prelude::*;

verus! {

/// A JSON document of the `serde_json` crate. The engine carries a route's
/// geometry in one and never looks inside.
#[verifier::external_type_specification]
#[verifier::external_body]
pub struct ExJsonValue(serde_json::Value);

/// A stored route, owned by the user who created it.
#[derive(Debug, PartialEq, Eq)]
pub struct Route {
    pub id: i32,
    pub user_id: i32,
    pub name: String,
    pub description: Option<String>,
    pub is_public: bool,
    pub path_data: serde_json::Value,
    pub distance_meters: Option<i64>,
    pub created_at: Option<i64>,
    pub updated_at: Option<i64>,
}

/// The fields from which a route is created.
#[derive(Debug, PartialEq, Eq)]
pub struct CreateRoute {
    pub name: String,
    pub description: Option<String>,
    pub is_public: bool,
    pub path_data: serde_json::Value,
    pub distance_meters: Option<i64>,
}

/// A patch to a stored route: a field that is `None` leaves the stored value
/// as it is.
#[derive(Debug, PartialEq, Eq)]
pub struct UpdateRoute {
    pub name: Option<String>,
    pub description: Option<String>,
    pub is_public: Option<bool>,
    pub path_data: Option<serde_json::Value>,
    pub distance_meters: Option<i64>,
}

/// The characters of an optional text.
pub open spec fn text_of(text: Option<String>) -> Option<Seq<char>> {
    match text {
        Some(t) => Some(t@),
        None => None,
    }
}

/// The mathematical value of a [`Route`].
pub struct RouteView {
    pub id: i32,
    pub user_id: i32,
    pub name: Seq<char>,
    pub description: Option<Seq<char>>,
    pub is_public: bool,
    pub path_data: serde_json::Value,
    pub distance_meters: Option<i64>,
    pub created_at: Option<i64>,
    pub updated_at: Option<i64>,
}

impl View for Route {
    type V = RouteView;

    open spec fn view(&self) -> RouteView {
        RouteView {
            id: self.id,
            user_id: self.user_id,
            name: self.name@,
            description: text_of(self.description),
            is_public: self.is_public,
            path_data: self.path_data,
            distance_meters: self.distance_meters,
            created_at: self.created_at,
            updated_at: self.updated_at,
        }
    }
}

/// The mathematical value of a [`CreateRoute`].
pub struct CreateRouteView {
    pub name: Seq<char>,
    pub description: Option<Seq<char>>,
    pub is_public: bool,
    pub path_data: serde_json::Value,
    pub distance_meters: Option<i64>,
}

impl View for CreateRoute {
    type V = CreateRouteView;

    open spec fn view(&self) -> CreateRouteView {
        CreateRouteView {
            name: self.name@,
            description: text_of(self.description),
            is_public: self.is_public,
            path_data: self.path_data,
            distance_meters: self.distance_meters,
        }
    }
}

/// The mathematical value of an [`UpdateRoute`].
pub struct UpdateRouteView {
    pub name: Option<Seq<char>>,
    pub description: Option<Seq<char>>,
    pub is_public: Option<bool>,
    pub path_data: Option<serde_json::Value>,
    pub distance_meters: Option<i64>,
}

impl View for UpdateRoute {
    type V = UpdateRouteView;

    open spec fn view(&self) -> UpdateRouteView {
        UpdateRouteView {
            name: text_of(self.name),
            description: text_of(self.description),
            is_public: self.is_public,
            path_data: self.path_data,
            distance_meters: self.distance_meters,
        }
    }
}

} // verus!
