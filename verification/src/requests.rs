//! The requests the bot makes to Discord's REST API: their URLs, the
//! authorization header and the JSON bodies.

use vstd::prelude::*;

use crate::json::{
    json_array, json_member, json_object, json_str, json_uint, member_views, views, Json,
    JsonValue, NumberModel,
};
use crate::text::owned;

verus! {

/// The `Authorization` header value for a bot token.
pub fn bot_authorization(token: &str) -> (r: String)
    ensures
        r@ == "Bot "@ + token@,
{
    let mut r = owned("Bot ");
    r.append(token);
    r
}

/// Where the `/kv` command is registered: in one guild where a guild is
/// configured, else for the whole application.
pub open spec fn command_registration_url_spec(application_id: Seq<char>, guild_id: Option<Seq<char>>) -> Seq<char> {
    match guild_id {
        Some(g) => "https://discord.com/api/v10/applications/"@ + application_id + "/guilds/"@ + g
            + "/commands"@,
        None => "https://discord.com/api/v10/applications/"@ + application_id + "/commands"@,
    }
}

/// The URL to register the `/kv` command at.
pub fn command_registration_url(application_id: &str, guild_id: Option<&str>) -> (r: String)
    ensures
        r@ == command_registration_url_spec(
            application_id@,
            match guild_id {
                Some(g) => Some(g@),
                None => None,
            },
        ),
{
    let mut r = owned("https://discord.com/api/v10/applications/");
    r.append(application_id);
    match guild_id {
        Some(g) => {
            r.append("/guilds/");
            r.append(g);
            r.append("/commands");
        },
        None => {
            r.append("/commands");
        },
    }
    r
}

/// The URL of a user's profile.
pub fn user_profile_url(user_id: &str) -> (r: String)
    ensures
        r@ == "https://discord.com/api/v10/users/"@ + user_id@,
{
    let mut r = owned("https://discord.com/api/v10/users/");
    r.append(user_id);
    r
}

/// The URL that answers an interaction.
pub fn interaction_callback_url(interaction_id: &str, interaction_token: &str) -> (r: String)
    ensures
        r@ == "https://discord.com/api/v10/interactions/"@ + interaction_id@ + "/"@
            + interaction_token@ + "/callback"@,
{
    let mut r = owned("https://discord.com/api/v10/interactions/");
    r.append(interaction_id);
    r.append("/");
    r.append(interaction_token);
    r.append("/callback");
    r
}

/// The answer to an interaction: a message (type 4) that only the user who
/// ran the command sees (flag 64).
pub open spec fn interaction_callback_spec(content: Seq<char>) -> Json {
    Json::Object(
        seq![
            ("type"@, Json::Number(NumberModel::PosInt(4))),
            (
                "data"@,
                Json::Object(
                    seq![
                        ("content"@, Json::Str(content)),
                        ("flags"@, Json::Number(NumberModel::PosInt(64))),
                    ],
                ),
            ),
        ],
    )
}

/// The body that answers an interaction with `content`.
pub fn interaction_callback_body(content: &str) -> (r: JsonValue)
    ensures
        r@ == interaction_callback_spec(content@),
{
    let data = vec![json_member("content", json_str(content)), json_member("flags", json_uint(64))];
    let ghost dm = data@;
    let data = json_object(data);
    proof {
        assert(member_views(dm) =~= seq![
            ("content"@, Json::Str(content@)),
            ("flags"@, Json::Number(NumberModel::PosInt(64))),
        ]);
    }
    let members = vec![json_member("type", json_uint(4)), json_member("data", data)];
    let ghost m = members@;
    let r = json_object(members);
    proof {
        assert(member_views(m) =~= seq![
            ("type"@, Json::Number(NumberModel::PosInt(4))),
            ("data"@, data@),
        ]);
    }
    r
}

/// A required string option (type 3) of a subcommand.
pub open spec fn string_option_spec(name: Seq<char>, description: Seq<char>) -> Json {
    Json::Object(
        seq![
            ("type"@, Json::Number(NumberModel::PosInt(3))),
            ("name"@, Json::Str(name)),
            ("description"@, Json::Str(description)),
            ("required"@, Json::Bool(true)),
        ],
    )
}

fn string_option(name: &str, description: &str) -> (r: JsonValue)
    ensures
        r@ == string_option_spec(name@, description@),
{
    let members = vec![
        json_member("type", json_uint(3)),
        json_member("name", json_str(name)),
        json_member("description", json_str(description)),
        json_member("required", JsonValue::Bool(true)),
    ];
    let ghost m = members@;
    let r = json_object(members);
    proof {
        assert(member_views(m) =~= match string_option_spec(name@, description@) {
            Json::Object(s) => s,
            _ => Seq::empty(),
        });
    }
    r
}

/// A subcommand (type 1), with its options where it has any.
pub open spec fn subcommand_spec(name: Seq<char>, description: Seq<char>, options: Option<Seq<Json>>) -> Json {
    let head = seq![
        ("type"@, Json::Number(NumberModel::PosInt(1))),
        ("name"@, Json::Str(name)),
        ("description"@, Json::Str(description)),
    ];
    match options {
        Some(o) => Json::Object(head.push(("options"@, Json::Array(o)))),
        None => Json::Object(head),
    }
}

fn subcommand(name: &str, description: &str, options: Option<Vec<JsonValue>>) -> (r: JsonValue)
    ensures
        r@ == subcommand_spec(
            name@,
            description@,
            match options {
                Some(o) => Some(views(o@)),
                None => None,
            },
        ),
{
    let mut members = vec![
        json_member("type", json_uint(1)),
        json_member("name", json_str(name)),
        json_member("description", json_str(description)),
    ];
    let ghost head = member_views(members@);
    proof {
        assert(head =~= seq![
            ("type"@, Json::Number(NumberModel::PosInt(1))),
            ("name"@, Json::Str(name@)),
            ("description"@, Json::Str(description@)),
        ]);
    }
    match options {
        Some(o) => {
            let ghost ov = views(o@);
            let arr = json_array(o);
            members.push(json_member("options", arr));
            proof {
                assert(member_views(members@) =~= head.push(("options"@, Json::Array(ov))));
            }
        },
        None => {},
    }
    json_object(members)
}

/// The `/kv` command: `set` with a key and a value, `delete` with a key, and `list`.
pub open spec fn kv_command_definition_spec() -> Json {
    Json::Object(
        seq![
            ("name"@, Json::Str("kv"@)),
            ("description"@, Json::Str("Manage your Neurobox profile metadata"@)),
            (
                "options"@,
                Json::Array(
                    seq![
                        subcommand_spec(
                            "set"@,
                            "Set one profile value"@,
                            Some(
                                seq![
                                    string_option_spec("key"@, "The field name, like site or bio"@),
                                    string_option_spec("value"@, "The value to save"@),
                                ],
                            ),
                        ),
                        subcommand_spec(
                            "delete"@,
                            "Delete one profile value"@,
                            Some(seq![string_option_spec("key"@, "The field name to delete"@)]),
                        ),
                        subcommand_spec("list"@, "Show your saved profile values"@, None),
                    ],
                ),
            ),
        ],
    )
}

/// The definition of the `/kv` command.
pub fn kv_command_definition() -> (r: JsonValue)
    ensures
        r@ == kv_command_definition_spec(),
{
    let set_options = vec![
        string_option("key", "The field name, like site or bio"),
        string_option("value", "The value to save"),
    ];
    proof {
        assert(views(set_options@) =~= seq![
            string_option_spec("key"@, "The field name, like site or bio"@),
            string_option_spec("value"@, "The value to save"@),
        ]);
    }
    let set = subcommand("set", "Set one profile value", Some(set_options));
    let delete_options = vec![string_option("key", "The field name to delete")];
    proof {
        assert(views(delete_options@) =~= seq![
            string_option_spec("key"@, "The field name to delete"@),
        ]);
    }
    let delete = subcommand("delete", "Delete one profile value", Some(delete_options));
    let list = subcommand("list", "Show your saved profile values", None);
    let subcommands = vec![set, delete, list];
    let ghost sv = views(subcommands@);
    let options = json_array(subcommands);
    let members = vec![
        json_member("name", json_str("kv")),
        json_member("description", json_str("Manage your Neurobox profile metadata")),
        json_member("options", options),
    ];
    let ghost m = members@;
    let r = json_object(members);
    proof {
        assert(sv =~= seq![
            subcommand_spec(
                "set"@,
                "Set one profile value"@,
                Some(
                    seq![
                        string_option_spec("key"@, "The field name, like site or bio"@),
                        string_option_spec("value"@, "The value to save"@),
                    ],
                ),
            ),
            subcommand_spec(
                "delete"@,
                "Delete one profile value"@,
                Some(seq![string_option_spec("key"@, "The field name to delete"@)]),
            ),
            subcommand_spec("list"@, "Show your saved profile values"@, None),
        ]);
        assert(member_views(m) =~= match kv_command_definition_spec() {
            Json::Object(s) => s,
            _ => Seq::empty(),
        });
    }
    r
}

} // verus!
