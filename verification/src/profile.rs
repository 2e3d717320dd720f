//! Looking players up with the Minecraft profile API: the addresses to ask, the limit on
//! requests, and what a response says.
use serde_json::Value;
use vstd::prelude::*;

use crate::json::{json_members, json_parse, lookup, member, parse};
use crate::player_uuid::{
    compact_text_stands_for_its_id, hyphenated, uuid_complaint, uuid_of, written_id_reads_back, Uuid,
};
use crate::text::{hex, join};

verus! {

/// The API provider to use for Minecraft profile lookups.
#[derive(Clone, Copy, Debug)]
pub struct ApiProvider {
    /// Where to look a player up by name.
    pub username_base_url: &'static str,
    /// Where to look a player up by id.
    pub uuid_base_url: &'static str,
    /// How many requests may be sent in one interval.
    pub max_requests: usize,
    /// The length of an interval, in seconds.
    pub interval_secs: u64,
}

impl ApiProvider {
    /// The matdoes.dev API mirror provider with higher rate limits.
    pub fn mat_does_dev() -> (provider: Self)
        ensures
            provider.username_base_url@
                == "https://mowojang.matdoes.dev/users/profiles/minecraft"@,
            provider.uuid_base_url@ == "https://mowojang.matdoes.dev/session/minecraft/profile"@,
            provider.max_requests == 10_000,
            provider.interval_secs == 1,
    {
        ApiProvider {
            username_base_url: "https://mowojang.matdoes.dev/users/profiles/minecraft",
            uuid_base_url: "https://mowojang.matdoes.dev/session/minecraft/profile",
            max_requests: 10_000,
            interval_secs: 1,
        }
    }

    /// The official Mojang API provider.
    pub fn mojang() -> (provider: Self)
        ensures
            provider.username_base_url@ == "https://api.mojang.com/users/profiles/minecraft"@,
            provider.uuid_base_url@
                == "https://sessionserver.mojang.com/session/minecraft/profile"@,
            provider.max_requests == 600,
            provider.interval_secs == 600,
    {
        ApiProvider {
            username_base_url: "https://api.mojang.com/users/profiles/minecraft",
            uuid_base_url: "https://sessionserver.mojang.com/session/minecraft/profile",
            max_requests: 600,
            interval_secs: 600,
        }
    }

    /// Where to look up the player of this name.
    pub fn username_url(&self, username: &str) -> (url: String)
        ensures
            url@ == self.username_base_url@ + "/"@ + username@,
    {
        let mut url: String = join(self.username_base_url, "/");
        url.append(username);
        url
    }

    /// Where to look up the player of this id, signatures included.
    pub fn uuid_url(&self, uuid: &Uuid) -> (url: String)
        ensures
            url@ == self.uuid_base_url@ + "/"@ + hyphenated(uuid.bytes@) + "?unsigned=false"@,
    {
        let id: String = uuid.to_text();
        let mut url: String = join(self.uuid_base_url, "/");
        url.append(id.as_str());
        url.append("?unsigned=false");
        url
    }

    /// How many requests may be sent in one interval.
    pub fn max_requests(&self) -> (requests: usize)
        ensures
            requests == self.max_requests,
    {
        self.max_requests
    }

    /// The length of an interval, in seconds.
    pub fn interval(&self) -> (secs: u64)
        ensures
            secs == self.interval_secs,
    {
        self.interval_secs
    }

    /// How many permits to add at the start of an interval, so that as many are available as
    /// requests may be sent, where `available` are left from before.
    pub fn permits_to_add(&self, available: usize) -> (permits: usize)
        requires
            available <= self.max_requests,
        ensures
            permits + available == self.max_requests,
            forall|p: Permits|
                p.refill_due && p.counted == available ==> (#[trigger] permits_after(
                    self.max_requests as nat,
                    p,
                    PermitEvent::Refill,
                )).left == p.left + permits,
    {
        self.max_requests - available
    }

    /// How many permits a client starts with.
    pub fn initial_permits(&self) -> (permits: usize)
        ensures
            permits == permits_at_start(self.max_requests as nat).left,
            permits == self.max_requests,
    {
        self.max_requests()
    }

    /// Decides what is done at the start of an interval, where `available` is how many permits
    /// are left, or `None` if the client is gone: then there is nothing to do any more, else the
    /// missing permits are added.
    pub fn refill_step(&self, available: Option<usize>) -> (step: RefillStep)
        requires
            available matches Some(available) ==> available <= self.max_requests,
        ensures
            match available {
                None => step is End,
                Some(available) => {
                    &&& step matches RefillStep::Add(permits)
                    &&& permits + available == self.max_requests
                    &&& forall|p: Permits|
                        p.refill_due && p.counted == available ==> (#[trigger] permits_after(
                            self.max_requests as nat,
                            p,
                            PermitEvent::Refill,
                        )).left == p.left + permits
                },
            },
    {
        match available {
            None => RefillStep::End,
            Some(available) => RefillStep::Add(self.permits_to_add(available)),
        }
    }
}

/// What is done at the start of an interval.
#[derive(Clone, Copy, Debug, PartialEq, Eq, Structural)]
pub enum RefillStep {
    /// Add this many permits, and wait for the next interval.
    Add(usize),
    /// End: the client is gone.
    End,
}

/// Whether the next request has to wait for the next interval, given the permits that are
/// left.
pub fn rate_limit_applies(available: usize) -> (applies: bool)
    ensures
        applies == (available == 0),
{
    available == 0
}

/// What can happen to the permits of a client.
pub enum PermitEvent {
    /// A request was sent: it takes a permit.
    Request,
    /// An interval started, and the permits that are left were counted.
    Count,
    /// The permits that were missing at the count were added.
    Refill,
}

/// The permits of a client.
pub struct Permits {
    /// The permits that are left.
    pub left: int,
    /// The permits that were left at the last count.
    pub counted: int,
    /// Whether the permits that were missing at the last count are still to be added.
    pub refill_due: bool,
    /// The requests that were sent since the last count, or since the start.
    pub requests: int,
}

/// The permits that a client starts with.
pub open spec fn permits_at_start(max_requests: nat) -> Permits {
    Permits {
        left: max_requests as int,
        counted: max_requests as int,
        refill_due: false,
        requests: 0,
    }
}

/// The permits after an event. Counting and adding take turns.
pub open spec fn permits_after(max_requests: nat, permits: Permits, event: PermitEvent) -> Permits {
    match event {
        PermitEvent::Request => Permits {
            left: permits.left - 1,
            requests: permits.requests + 1,
            ..permits
        },
        PermitEvent::Count => if permits.refill_due {
            permits
        } else {
            Permits { counted: permits.left, refill_due: true, requests: 0, ..permits }
        },
        PermitEvent::Refill => if permits.refill_due {
            Permits {
                left: permits.left + (max_requests - permits.counted),
                refill_due: false,
                ..permits
            }
        } else {
            permits
        },
    }
}

/// The permits after a run of events, from the start.
pub open spec fn permits_after_all(max_requests: nat, events: Seq<PermitEvent>) -> Permits
    decreases events.len(),
{
    if events.len() == 0 {
        permits_at_start(max_requests)
    } else {
        permits_after(
            max_requests,
            permits_after_all(max_requests, events.drop_last()),
            events.last(),
        )
    }
}

/// As long as a request is sent only with a permit, no more requests are sent from one count
/// to the next than the provider allows, whether they come before or after the missing permits
/// are added; never are more permits left than that; and never are more counted, so that the
/// number of missing ones is well defined.
pub proof fn requests_stay_within_the_limit(max_requests: nat, events: Seq<PermitEvent>)
    requires
        permits_after_all(max_requests, events).left >= 0,
    ensures
        permits_after_all(max_requests, events).requests <= max_requests,
        permits_after_all(max_requests, events).left <= max_requests,
        permits_after_all(max_requests, events).counted <= max_requests,
{
    permits_and_requests_make_the_limit(max_requests, events);
}

proof fn permits_and_requests_make_the_limit(max_requests: nat, events: Seq<PermitEvent>)
    ensures
        ({
            let permits = permits_after_all(max_requests, events);
            &&& 0 <= permits.requests
            &&& permits.counted <= max_requests
            &&& permits.left + permits.requests == if permits.refill_due {
                permits.counted
            } else {
                max_requests as int
            }
        }),
    decreases events.len(),
{
    if events.len() > 0 {
        permits_and_requests_make_the_limit(max_requests, events.drop_last());
    }
}

/// What goes wrong with a lookup.
#[derive(Debug, PartialEq, Eq)]
pub enum ProfileError {
    /// The API did not answer with success.
    RequestFailed,
    /// The answer is not JSON; `cause` says why not.
    InvalidJson { body: String, cause: String },
    /// The API answered with an error.
    Api { error: String },
    /// The answer has no member `id`.
    NoId,
    /// The member `id` is not a string.
    IdNotString,
    /// The member `id` is not an id; `cause` says why not.
    InvalidId { cause: String },
    /// The answer has no member `name`.
    NoName,
    /// The member `name` is not a string.
    NameNotString,
}

/// A text in quotes, as it is shown to developers.
pub uninterp spec fn quoted(text: Seq<char>) -> Seq<char>;

/// The `Debug` of `str`: the text in quotes, with what cannot be shown escaped.
#[verifier::external_body]
fn quote(text: &str) -> (quotation: String)
    ensures
        quotation@ == quoted(text@),
{
    format!("{:?}", text)
}

impl ProfileError {
    /// What went wrong, in words.
    pub open spec fn explanation(self) -> Seq<char> {
        match self {
            ProfileError::RequestFailed => "Failed to retrieve data from API"@,
            ProfileError::InvalidJson { body, .. } => "failed to parse json from response: "@
                + quoted(body@),
            ProfileError::Api { error } => "API Error: "@ + error@,
            ProfileError::NoId => "no id in json"@,
            ProfileError::IdNotString => "id is not a string"@,
            ProfileError::InvalidId { cause } => cause@,
            ProfileError::NoName => "no name in json"@,
            ProfileError::NameNotString => "Username not found"@,
        }
    }

    /// Says what went wrong.
    pub fn message(&self) -> (message: String)
        ensures
            message@ == self.explanation(),
    {
        match self {
            ProfileError::RequestFailed => "Failed to retrieve data from API".to_owned(),
            ProfileError::InvalidJson { body, .. } => {
                let quotation: String = quote(body.as_str());
                join("failed to parse json from response: ", quotation.as_str())
            },
            ProfileError::Api { error } => join("API Error: ", error.as_str()),
            ProfileError::NoId => "no id in json".to_owned(),
            ProfileError::IdNotString => "id is not a string".to_owned(),
            ProfileError::InvalidId { cause } => cause.clone(),
            ProfileError::NoName => "no name in json".to_owned(),
            ProfileError::NameNotString => "Username not found".to_owned(),
        }
    }
}

/// Looks a JSON answer through: one that has a member `error` is refused, with the text of
/// that member if it is one.
pub fn refuse_error(document: Value) -> (checked: Result<Value, ProfileError>)
    ensures
        match lookup(json_members(document), "error"@) {
            None => checked == Ok::<Value, ProfileError>(document),
            Some(Some(text)) => checked matches Err(ProfileError::Api { error }) && error@ == text,
            Some(None) => checked matches Err(ProfileError::Api { error }) && error@
                == "Unknown error"@,
        },
{
    match member(&document, "error") {
        None => Ok(document),
        Some(Some(error)) => Err(ProfileError::Api { error }),
        Some(None) => Err(ProfileError::Api { error: "Unknown error".to_owned() }),
    }
}

/// The document that an answer of the API gives, or what is wrong with the answer.
pub open spec fn is_data_answer(
    is_success: bool,
    body: Seq<char>,
    response: Result<Value, ProfileError>,
) -> bool {
    if !is_success {
        response matches Err(ProfileError::RequestFailed)
    } else {
        match json_parse(body) {
            Err(complaint) => response matches Err(ProfileError::InvalidJson { body: text, cause })
                && text@ == body && cause@ == complaint,
            Ok(document) => match lookup(json_members(document), "error"@) {
                None => response == Ok::<Value, ProfileError>(document),
                Some(Some(text)) => response matches Err(ProfileError::Api { error }) && error@
                    == text,
                Some(None) => response matches Err(ProfileError::Api { error }) && error@
                    == "Unknown error"@,
            },
        }
    }
}

/// Reads an answer of the API, of which `is_success` says whether its status is one of
/// success. An answer without success, one that is not JSON and one that reports an error are
/// refused.
pub fn response_raw(is_success: bool, body: &str) -> (response: Result<Value, ProfileError>)
    ensures
        is_data_answer(is_success, body@, response),
{
    if !is_success {
        return Err(ProfileError::RequestFailed);
    }
    match parse(body) {
        Ok(document) => refuse_error(document),
        Err(cause) => Err(ProfileError::InvalidJson { body: body.to_owned(), cause }),
    }
}

/// Reads the id out of the answer to a lookup by name.
pub fn uuid_from_profile_response(json_object: &Value) -> (uuid: Result<Uuid, ProfileError>)
    ensures
        match lookup(json_members(*json_object), "id"@) {
            None => uuid matches Err(ProfileError::NoId),
            Some(None) => uuid matches Err(ProfileError::IdNotString),
            Some(Some(text)) => match uuid_of(text) {
                Some(bytes) => uuid matches Ok(id) && id.bytes@ == bytes,
                None => uuid matches Err(ProfileError::InvalidId { cause }) && cause@
                    == uuid_complaint(text),
            },
        },
{
    match member(json_object, "id") {
        None => Err(ProfileError::NoId),
        Some(None) => Err(ProfileError::IdNotString),
        Some(Some(id)) => match Uuid::parse(id.as_str()) {
            Ok(uuid) => Ok(uuid),
            Err(cause) => Err(ProfileError::InvalidId { cause }),
        },
    }
}

/// Reads the name out of the answer to a lookup by id.
pub fn username_from_profile_response(json_object: &Value) -> (username: Result<
    String,
    ProfileError,
>)
    ensures
        match lookup(json_members(*json_object), "name"@) {
            None => username matches Err(ProfileError::NoName),
            Some(None) => username matches Err(ProfileError::NameNotString),
            Some(Some(text)) => username matches Ok(name) && name@ == text,
        },
{
    match member(json_object, "name") {
        None => Err(ProfileError::NoName),
        Some(None) => Err(ProfileError::NameNotString),
        Some(Some(name)) => Ok(name),
    }
}

/// A client to interface with the Minecraft profile API. Requests are sent outside; the client
/// says where to, and reads the answers.
#[derive(Clone, Copy, Debug)]
pub struct MojangClient {
    pub provider: ApiProvider,
}

/// The id that the answer to a lookup by name gives, or what is wrong with the answer.
pub open spec fn is_uuid_answer(
    is_success: bool,
    body: Seq<char>,
    uuid: Result<Uuid, ProfileError>,
) -> bool {
    if !is_success {
        uuid matches Err(ProfileError::RequestFailed)
    } else {
        match json_parse(body) {
            Err(complaint) => uuid matches Err(ProfileError::InvalidJson { body: text, cause })
                && text@ == body && cause@ == complaint,
            Ok(document) => match (
                lookup(json_members(document), "error"@),
                lookup(json_members(document), "id"@),
            ) {
                (Some(Some(text)), _) => uuid matches Err(ProfileError::Api { error }) && error@
                    == text,
                (Some(None), _) => uuid matches Err(ProfileError::Api { error }) && error@
                    == "Unknown error"@,
                (None, None) => uuid matches Err(ProfileError::NoId),
                (None, Some(None)) => uuid matches Err(ProfileError::IdNotString),
                (None, Some(Some(text))) => match uuid_of(text) {
                    Some(bytes) => uuid matches Ok(id) && id.bytes@ == bytes,
                    None => uuid matches Err(ProfileError::InvalidId { cause }) && cause@
                        == uuid_complaint(text),
                },
            },
        }
    }
}

/// The name that the answer to a lookup by id gives, or what is wrong with the answer.
pub open spec fn is_username_answer(
    is_success: bool,
    body: Seq<char>,
    username: Result<String, ProfileError>,
) -> bool {
    if !is_success {
        username matches Err(ProfileError::RequestFailed)
    } else {
        match json_parse(body) {
            Err(complaint) => username matches Err(ProfileError::InvalidJson { body: text, cause })
                && text@ == body && cause@ == complaint,
            Ok(document) => match (
                lookup(json_members(document), "error"@),
                lookup(json_members(document), "name"@),
            ) {
                (Some(Some(text)), _) => username matches Err(ProfileError::Api { error })
                    && error@ == text,
                (Some(None), _) => username matches Err(ProfileError::Api { error }) && error@
                    == "Unknown error"@,
                (None, None) => username matches Err(ProfileError::NoName),
                (None, Some(None)) => username matches Err(ProfileError::NameNotString),
                (None, Some(Some(text))) => username matches Ok(name) && name@ == text,
            },
        }
    }
}

impl MojangClient {
    /// A client that uses a provider.
    pub fn new(provider: ApiProvider) -> (client: Self)
        ensures
            client.provider == provider,
    {
        MojangClient { provider }
    }

    /// Gets a player's UUID from the answer to the lookup by their username.
    pub fn get_uuid(&self, is_success: bool, body: &str) -> (uuid: Result<Uuid, ProfileError>)
        ensures
            is_uuid_answer(is_success, body@, uuid),
    {
        match response_raw(is_success, body) {
            Ok(json_object) => uuid_from_profile_response(&json_object),
            Err(error) => Err(error),
        }
    }

    /// Gets a player's username from the answer to the lookup by their UUID.
    pub fn get_username(&self, is_success: bool, body: &str) -> (username: Result<
        String,
        ProfileError,
    >)
        ensures
            is_username_answer(is_success, body@, username),
    {
        match response_raw(is_success, body) {
            Ok(json_object) => username_from_profile_response(&json_object),
            Err(error) => Err(error),
        }
    }

    /// Gets player data from the answer to the lookup by their UUID.
    pub fn data_from_uuid(&self, is_success: bool, body: &str) -> (data: Result<
        Value,
        ProfileError,
    >)
        ensures
            is_data_answer(is_success, body@, data),
    {
        response_raw(is_success, body)
    }

    /// Gets player data from the answer to the lookup by their username.
    pub fn data_from_username(&self, is_success: bool, body: &str) -> (data: Result<
        Value,
        ProfileError,
    >)
        ensures
            is_data_answer(is_success, body@, data),
    {
        response_raw(is_success, body)
    }
}

/// The name in an answer with success comes out as it stands, whatever it is, as long as the
/// answer reports no error. A missing name and one that is no text are told apart.
pub proof fn names_come_out_as_they_stand(
    body: Seq<char>,
    document: Value,
    username: Result<String, ProfileError>,
)
    requires
        is_username_answer(true, body, username),
        json_parse(body) == Ok::<_, Seq<char>>(document),
        !json_members(document).dom().contains("error"@),
    ensures
        ({
            let members = json_members(document);
            &&& username is Ok <==> members.dom().contains("name"@) && members["name"@] is Some
            &&& username is Ok ==> username->Ok_0@ == members["name"@]->0
            &&& !members.dom().contains("name"@) ==> username->Err_0 is NoName
            &&& members.dom().contains("name"@) && members["name"@] is None ==> username->Err_0
                is NameNotString
        }),
{
}

/// The id in an answer with success comes out whatever form it is written in, as long as the
/// answer reports no error. A missing id, one that is no text and one that is no id are told
/// apart.
pub proof fn ids_come_out_in_any_form(
    body: Seq<char>,
    document: Value,
    uuid: Result<Uuid, ProfileError>,
)
    requires
        is_uuid_answer(true, body, uuid),
        json_parse(body) == Ok::<_, Seq<char>>(document),
        !json_members(document).dom().contains("error"@),
    ensures
        ({
            let members = json_members(document);
            let text = members["id"@]->0;
            &&& uuid is Ok <==> members.dom().contains("id"@) && members["id"@] is Some && uuid_of(
                text,
            ) is Some
            &&& uuid is Ok ==> uuid_of(text) == Some(uuid->Ok_0.bytes@)
            &&& !members.dom().contains("id"@) ==> uuid->Err_0 is NoId
            &&& members.dom().contains("id"@) && members["id"@] is None ==> uuid->Err_0
                is IdNotString
            &&& members.dom().contains("id"@) && members["id"@] is Some && uuid_of(text) is None
                ==> (uuid->Err_0 matches ProfileError::InvalidId { cause } && cause@
                == uuid_complaint(text))
        }),
{
}

/// The id that a lookup gives is the one that the answer holds: written in either form, with or
/// without hyphens, every id comes back.
pub proof fn every_id_comes_back(
    body: Seq<char>,
    document: Value,
    id: Seq<u8>,
    text: Seq<char>,
    uuid: Result<Uuid, ProfileError>,
)
    requires
        is_uuid_answer(true, body, uuid),
        json_parse(body) == Ok::<_, Seq<char>>(document),
        !json_members(document).dom().contains("error"@),
        json_members(document).contains_pair("id"@, Some(text)),
        id.len() == 16,
        text == hex(id) || text == hyphenated(id),
    ensures
        uuid matches Ok(uuid) && uuid.bytes@ == id,
{
    compact_text_stands_for_its_id(id);
    written_id_reads_back(id);
}

/// A document in an answer with success comes out whole, exactly if it reports no error.
pub proof fn documents_without_error_come_out_whole(
    body: Seq<char>,
    document: Value,
    response: Result<Value, ProfileError>,
)
    requires
        is_data_answer(true, body, response),
        json_parse(body) == Ok::<_, Seq<char>>(document),
    ensures
        response is Ok <==> !json_members(document).dom().contains("error"@),
        response matches Ok(data) ==> data == document,
{
}

/// An answer without success is refused whatever it holds, one that is no JSON with its text and
/// the complaint about it, and one that reports an error with the text of the error, or with
/// words for an error that has none. All lookups refuse alike.
pub proof fn bad_answers_are_refused_alike(
    is_success: bool,
    body: Seq<char>,
    response: Result<Value, ProfileError>,
    uuid: Result<Uuid, ProfileError>,
    username: Result<String, ProfileError>,
)
    requires
        is_data_answer(is_success, body, response),
        is_uuid_answer(is_success, body, uuid),
        is_username_answer(is_success, body, username),
    ensures
        !is_success ==> response->Err_0 is RequestFailed && uuid->Err_0 is RequestFailed
            && username->Err_0 is RequestFailed && response is Err && uuid is Err && username
            is Err,
        is_success && json_parse(body) is Err ==> refuses_json(response, body) && refuses_json(
            uuid,
            body,
        ) && refuses_json(username, body),
        is_success && json_parse(body) is Ok && json_members(json_parse(body)->Ok_0).dom().contains(
            "error"@,
        ) ==> {
            let error = match json_members(json_parse(body)->Ok_0)["error"@] {
                Some(text) => text,
                None => "Unknown error"@,
            };
            reports(response, error) && reports(uuid, error) && reports(username, error)
        },
{
}

/// Whether a result refuses a text that is no JSON, with the text and the complaint about it.
pub open spec fn refuses_json<T>(result: Result<T, ProfileError>, body: Seq<char>) -> bool {
    result matches Err(ProfileError::InvalidJson { body: text, cause }) && text@ == body && cause@
        == json_parse(body)->Err_0
}

/// Whether a result passes an error of the API on.
pub open spec fn reports<T>(result: Result<T, ProfileError>, error: Seq<char>) -> bool {
    result matches Err(ProfileError::Api { error: text }) && text@ == error
}

/// What went wrong is said with the text that belongs to it, whatever that text is.
pub proof fn explanations_hold_their_texts(body: String, cause: String, error: String)
    ensures
        (ProfileError::InvalidJson { body, cause }).explanation()
            == "failed to parse json from response: "@ + quoted(body@),
        (ProfileError::Api { error }).explanation() == "API Error: "@ + error@,
        (ProfileError::InvalidId { cause }).explanation() == cause@,
{
}

/// From one count to the next, a refill brings the permits that are left to as many as may be
/// sent, less what was sent since the count; and before any count all may be sent.
pub proof fn a_refill_restores_all_but_what_was_sent(
    max_requests: nat,
    permits: Permits,
    sent: nat,
)
    requires
        permits.refill_due,
        permits.left + sent == permits.counted,
    ensures
        permits_after(max_requests, permits, PermitEvent::Refill).left + sent == max_requests,
        permits_at_start(max_requests).left == max_requests,
        permits_after(max_requests, permits, PermitEvent::Request).left == permits.left - 1,
{
}

/// Looking a player up by id gives the name in the answer as it stands, whatever it is.
pub proof fn a_lookup_by_id_gives_the_name(
    client: &MojangClient,
    body: &str,
    document: Value,
    name: Seq<char>,
    username: Result<String, ProfileError>,
)
    requires
        call_ensures(MojangClient::get_username, (client, true, body), username),
        json_parse(body@) == Ok::<_, Seq<char>>(document),
        !json_members(document).dom().contains("error"@),
        json_members(document).contains_pair("name"@, Some(name)),
    ensures
        username matches Ok(username) && username@ == name,
{
}

/// Looking a player up by name gives the id in the answer, with or without hyphens.
pub proof fn a_lookup_by_name_gives_the_id(
    client: &MojangClient,
    body: &str,
    document: Value,
    id: Seq<u8>,
    text: Seq<char>,
    uuid: Result<Uuid, ProfileError>,
)
    requires
        call_ensures(MojangClient::get_uuid, (client, true, body), uuid),
        json_parse(body@) == Ok::<_, Seq<char>>(document),
        !json_members(document).dom().contains("error"@),
        json_members(document).contains_pair("id"@, Some(text)),
        id.len() == 16,
        text == hex(id) || text == hyphenated(id),
    ensures
        uuid matches Ok(uuid) && uuid.bytes@ == id,
{
    every_id_comes_back(body@, document, id, text, uuid);
}

/// Player data comes out whole and alike for a lookup by id and one by name, exactly if the
/// answer has success, is JSON and reports no error.
pub proof fn data_is_the_same_for_both_lookups(
    client: &MojangClient,
    is_success: bool,
    body: &str,
    by_uuid: Result<Value, ProfileError>,
    by_username: Result<Value, ProfileError>,
)
    requires
        call_ensures(MojangClient::data_from_uuid, (client, is_success, body), by_uuid),
        call_ensures(MojangClient::data_from_username, (client, is_success, body), by_username),
    ensures
        by_uuid is Ok <==> is_success && json_parse(body@) is Ok && !json_members(
            json_parse(body@)->Ok_0,
        ).dom().contains("error"@),
        by_username is Ok <==> by_uuid is Ok,
        by_uuid is Ok ==> by_uuid->Ok_0 == json_parse(body@)->Ok_0 && by_username->Ok_0
            == json_parse(body@)->Ok_0,
{
}

/// A provider is asked for each player at an address of its own: lookups at the same address are
/// for the same name, or for the same id.
pub proof fn each_player_has_an_address_to_ask(
    provider: &ApiProvider,
    first: &str,
    second: &str,
    name_url: String,
    first_id: &Uuid,
    second_id: &Uuid,
    id_url: String,
)
    requires
        call_ensures(ApiProvider::username_url, (provider, first), name_url),
        call_ensures(ApiProvider::username_url, (provider, second), name_url),
        call_ensures(ApiProvider::uuid_url, (provider, first_id), id_url),
        call_ensures(ApiProvider::uuid_url, (provider, second_id), id_url),
    ensures
        name_url@ == provider.username_base_url@ + "/"@ + first@,
        id_url@ == provider.uuid_base_url@ + "/"@ + hyphenated(first_id.bytes@)
            + "?unsigned=false"@,
        first@ == second@,
        first_id.bytes@ == second_id.bytes@,
{
    let base = provider.username_base_url@ + "/"@;
    assert(name_url@.skip(base.len() as int) =~= first@);
    assert(name_url@.skip(base.len() as int) =~= second@);
    let base = provider.uuid_base_url@ + "/"@;
    let end = "?unsigned=false"@.len();
    assert(id_url@.subrange(base.len() as int, id_url@.len() - end) =~= hyphenated(
        first_id.bytes@,
    ));
    assert(id_url@.subrange(base.len() as int, id_url@.len() - end) =~= hyphenated(
        second_id.bytes@,
    ));
    written_id_reads_back(first_id.bytes@);
    written_id_reads_back(second_id.bytes@);
}

/// A profile gives the name and the id that it holds, whatever else it holds: two profiles that
/// agree on the two members give the same.
pub proof fn a_profile_gives_what_it_holds(
    first: &Value,
    second: &Value,
    first_uuid: Result<Uuid, ProfileError>,
    second_uuid: Result<Uuid, ProfileError>,
    first_name: Result<String, ProfileError>,
    second_name: Result<String, ProfileError>,
)
    requires
        call_ensures(uuid_from_profile_response, (first,), first_uuid),
        call_ensures(uuid_from_profile_response, (second,), second_uuid),
        call_ensures(username_from_profile_response, (first,), first_name),
        call_ensures(username_from_profile_response, (second,), second_name),
        lookup(json_members(*first), "id"@) == lookup(json_members(*second), "id"@),
        lookup(json_members(*first), "name"@) == lookup(json_members(*second), "name"@),
    ensures
        first_uuid is Ok <==> second_uuid is Ok,
        first_uuid is Ok ==> first_uuid->Ok_0.bytes@ == second_uuid->Ok_0.bytes@,
        first_name is Ok <==> second_name is Ok,
        first_name is Ok ==> first_name->Ok_0@ == second_name->Ok_0@,
        first_name is Ok <==> (lookup(json_members(*first), "name"@) matches Some(Some(_))),
        first_name matches Ok(name) ==> lookup(json_members(*first), "name"@) == Some(Some(name@)),
        first_uuid matches Ok(uuid) ==> (lookup(json_members(*first), "id"@) matches Some(
            Some(text),
        ) && uuid_of(text) == Some(uuid.bytes@)),
{
}

} // verus!
