//! The fixed JSON bodies of the HTTP API.

use vstd::prelude::*;

use crate::json::{json_member, json_object, json_str, json_uint, member_views, Json, JsonValue, NumberModel};

verus! {

/// The index: the service name and its routes.
pub open spec fn root_spec() -> Json {
    Json::Object(
        seq![
            ("service"@, Json::Str("neurobox-api"@)),
            ("routes"@, Json::Object(seq![
                ("health"@, Json::Str("/health"@)),
                ("user"@, Json::Str("/v1/users/{discord_user_id}"@)),
                ("batch"@, Json::Str("POST /v1/users"@)),
                ("socket"@, Json::Str("/socket"@)),
            ])),
        ],
    )
}

/// The body of `GET /`.
pub fn root_body() -> (r: JsonValue)
    ensures
        r@ == root_spec(),
{
    let routes = vec![
        json_member("health", json_str("/health")),
        json_member("user", json_str("/v1/users/{discord_user_id}")),
        json_member("batch", json_str("POST /v1/users")),
        json_member("socket", json_str("/socket")),
    ];
    let ghost rm = routes@;
    let routes = json_object(routes);
    proof {
        assert(member_views(rm) =~= seq![
            ("health"@, Json::Str("/health"@)),
            ("user"@, Json::Str("/v1/users/{discord_user_id}"@)),
            ("batch"@, Json::Str("POST /v1/users"@)),
            ("socket"@, Json::Str("/socket"@)),
        ]);
    }
    let members = vec![json_member("service", json_str("neurobox-api")), json_member("routes", routes)];
    let ghost m = members@;
    let r = json_object(members);
    proof {
        assert(member_views(m) =~= seq![
            ("service"@, Json::Str("neurobox-api"@)),
            ("routes"@, routes@),
        ]);
    }
    r
}

/// The health report: up, with the number of cached users.
pub open spec fn health_spec(cached_users: u64) -> Json {
    Json::Object(
        seq![
            ("ok"@, Json::Bool(true)),
            ("cached_users"@, Json::Number(NumberModel::PosInt(cached_users))),
        ],
    )
}

/// The body of `GET /health`.
pub fn health_body(cached_users: u64) -> (r: JsonValue)
    ensures
        r@ == health_spec(cached_users),
{
    let members = vec![
        json_member("ok", JsonValue::Bool(true)),
        json_member("cached_users", json_uint(cached_users)),
    ];
    let ghost m = members@;
    let r = json_object(members);
    proof {
        assert(member_views(m) =~= seq![
            ("ok"@, Json::Bool(true)),
            ("cached_users"@, Json::Number(NumberModel::PosInt(cached_users))),
        ]);
    }
    r
}

/// The answer to an unknown route: a failure, with the routes there are.
pub open spec fn not_found_spec() -> Json {
    Json::Object(
        seq![
            ("success"@, Json::Bool(false)),
            ("error"@, Json::Str("route_not_found"@)),
            ("routes"@, Json::Object(seq![
                ("index"@, Json::Str("/"@)),
                ("health"@, Json::Str("/health"@)),
                ("user"@, Json::Str("/v1/users/{user_id}"@)),
                ("batch"@, Json::Str("POST /v1/users"@)),
                ("socket"@, Json::Str("/socket"@)),
            ])),
        ],
    )
}

/// The body answered for an unknown route.
pub fn not_found_body() -> (r: JsonValue)
    ensures
        r@ == not_found_spec(),
{
    let routes = vec![
        json_member("index", json_str("/")),
        json_member("health", json_str("/health")),
        json_member("user", json_str("/v1/users/{user_id}")),
        json_member("batch", json_str("POST /v1/users")),
        json_member("socket", json_str("/socket")),
    ];
    let ghost rm = routes@;
    let routes = json_object(routes);
    proof {
        assert(member_views(rm) =~= seq![
            ("index"@, Json::Str("/"@)),
            ("health"@, Json::Str("/health"@)),
            ("user"@, Json::Str("/v1/users/{user_id}"@)),
            ("batch"@, Json::Str("POST /v1/users"@)),
            ("socket"@, Json::Str("/socket"@)),
        ]);
    }
    let members = vec![
        json_member("success", JsonValue::Bool(false)),
        json_member("error", json_str("route_not_found")),
        json_member("routes", routes),
    ];
    let ghost m = members@;
    let r = json_object(members);
    proof {
        assert(member_views(m) =~= seq![
            ("success"@, Json::Bool(false)),
            ("error"@, Json::Str("route_not_found"@)),
            ("routes"@, routes@),
        ]);
    }
    r
}

/// The answer for a user who is neither cached nor found on Discord.
pub open spec fn user_not_found_spec() -> Json {
    Json::Object(
        seq![
            ("success"@, Json::Bool(false)),
            ("error"@, Json::Str("user_not_found_or_not_cached"@)),
        ],
    )
}

/// The body answered for a user who is neither cached nor found on Discord.
pub fn user_not_found_body() -> (r: JsonValue)
    ensures
        r@ == user_not_found_spec(),
{
    let members = vec![
        json_member("success", JsonValue::Bool(false)),
        json_member("error", json_str("user_not_found_or_not_cached")),
    ];
    let ghost m = members@;
    let r = json_object(members);
    proof {
        assert(member_views(m) =~= seq![
            ("success"@, Json::Bool(false)),
            ("error"@, Json::Str("user_not_found_or_not_cached"@)),
        ]);
    }
    r
}

} // verus!
