//! What the services of the domain are asked, what their replies stand for, and how they are
//! configured.
use vstd::prelude::*;

use crate::http::{opt_reply, status_line, HttpReply, HttpRequest, Method, ReplyView, RequestView};
use crate::json::{parsed, Json, JsonView};
use crate::media::clients::{
    library_content, removal_content, reply_content, setting_view, settings_pair, url_setting_view,
    Service,
};
use crate::media::clients::jellyseerr::JellyseerrClient;
use crate::media::clients::plex::{live_reply_content, LiveErrorView, PlexClient};
use crate::media::clients::prowlarr::ProwlarrClient;
use crate::media::clients::qtor::QtorClient;
use crate::media::clients::radarr::RadarrClient;
use crate::media::clients::sonarr::SonarrClient;
use crate::media::clients::tmdb::TmdbClient;
use crate::media::taste_memory::TasteMemoryClient;
use crate::text::{dec, opt_str, trimmed, without_trailing};
use crate::tool::{Audit, ErrorView, Step, StepView, ToolError};

verus! {

/// The name of a service in a message.
pub open spec fn name_of(service: Service) -> Seq<char> {
    match service {
        Service::Radarr => "Radarr"@,
        Service::Sonarr => "Sonarr"@,
        Service::Plex => "Plex"@,
        Service::Tmdb => "TMDb"@,
        Service::Prowlarr => "Prowlarr"@,
        Service::DownloadClient => "Download client"@,
        Service::MediaRequests => "<media-service>"@,
    }
}

/// The first two hundred characters of a body, or nothing where it could not be read.
pub open spec fn beginning(body: Result<Seq<char>, Seq<char>>) -> Seq<char> {
    match body {
        Ok(text) => if text.len() > 200 {
            text.take(200)
        } else {
            text
        },
        Err(_) => ""@,
    }
}

/// A reply stands for an error where the service was not reached, does not know the resource,
/// refuses the request or is down; otherwise it stands for what its body holds as JSON, and an empty
/// body for an empty object.
pub proof fn replies_stand_for_their_status(service: Service, reply: ReplyView)
    ensures
        match reply {
            ReplyView::Failed { text, .. } => reply_content(service, reply) == Err::<
                JsonView,
                ErrorView,
            >(ErrorView::Http(name_of(service) + " unavailable: "@ + text)),
            ReplyView::Answered { status, body } => if status == 404 {
                reply_content(service, reply) == Err::<JsonView, ErrorView>(
                    ErrorView::NotFound(
                        (if service == Service::DownloadClient {
                            "Download-client"@
                        } else {
                            name_of(service)
                        }) + " resource not found"@,
                    ),
                )
            } else if 400 <= status && status < 500 {
                reply_content(service, reply) == Err::<JsonView, ErrorView>(
                    ErrorView::Http(
                        name_of(service) + " API error (HTTP "@ + status_line(status) + "): "@
                            + beginning(body),
                    ),
                )
            } else if 500 <= status && status < 600 {
                reply_content(service, reply) == Err::<JsonView, ErrorView>(
                    ErrorView::Http(
                        name_of(service) + " unavailable (HTTP "@ + status_line(status) + ")"@,
                    ),
                )
            } else {
                match body {
                    Err(e) => reply_content(service, reply) == Err::<JsonView, ErrorView>(
                        ErrorView::Http(e),
                    ),
                    Ok(text) => if trimmed(text).len() == 0 {
                        reply_content(service, reply) matches Ok(JsonView::Object(fields))
                            && fields.len() == 0
                    } else {
                        match parsed(text) {
                            Ok(v) => reply_content(service, reply) == Ok::<JsonView, ErrorView>(v),
                            Err(e) => reply_content(service, reply) == Err::<JsonView, ErrorView>(
                                ErrorView::Http(
                                    "Invalid JSON from "@ + (if service == Service::DownloadClient {
                                        "download client"@
                                    } else {
                                        name_of(service)
                                    }) + ": "@ + e,
                                ),
                            ),
                        }
                    },
                }
            },
        },
{
}

/// A reply that came counts with all that it says: its status and its body, or what went wrong.
pub proof fn replies_count_as_they_came(status: u16, body: Result<String, String>, reply: HttpReply)
    ensures
        opt_reply(Some(reply)) == Some(reply@),
        opt_reply(None) is None,
        (HttpReply::Answered { status, body })@ == (ReplyView::Answered {
            status,
            body: match body {
                Ok(text) => Ok(text@),
                Err(why) => Err(why@),
            },
        }),
        reply is Failed ==> reply@ is Failed,
{
}

/// A step stands for its answer, its request or its error, with its record where it has one.
pub proof fn steps_carry_their_record(
    answer: Json,
    request: HttpRequest,
    error: ToolError,
    record: Audit,
)
    ensures
        Step::Done(answer, Some(record))@ == StepView::Done(answer@, Some(record@)),
        Step::Done(answer, None)@ == StepView::Done(answer@, None),
        Step::Send(request)@ == StepView::Send(request@),
        Step::Failed(error, Some(record))@ == StepView::Failed(error@, Some(record@)),
        Step::Failed(error, None)@ == StepView::Failed(error@, None),
        record@.tool == record.tool@ && record@.success == record.success && record@.detail
            == record.detail@,
{
}

/// A library is what a good reply lists; anything else is an empty one. A removal was made where the
/// reply is good, and there was nothing to remove where the service does not know the item.
pub proof fn libraries_and_removals_are_read(service: Service, reply: ReplyView)
    ensures
        match reply_content(service, reply) {
            Ok(JsonView::Array(items)) => library_content(service, reply) == items,
            _ => library_content(service, reply).len() == 0,
        },
        match reply_content(service, reply) {
            Ok(_) => removal_content(service, reply) == Ok::<bool, ErrorView>(true),
            Err(ErrorView::NotFound(_)) => removal_content(service, reply) == Ok::<bool, ErrorView>(
                false,
            ),
            Err(e) => removal_content(service, reply) == Err::<bool, ErrorView>(e),
        },
{
}

/// A live read tells three outcomes apart: the server was not reached or could not serve, it refused
/// the token, or it said something that cannot be read. Only a success with JSON in it is content.
pub proof fn live_reads_tell_outcomes_apart(reply: ReplyView)
    ensures
        match reply {
            ReplyView::Failed { text: _, timeout, connect, request } => live_reply_content(reply)
                == Err::<JsonView, LiveErrorView>(
                LiveErrorView::Unreachable(
                    if timeout {
                        "timed out waiting for Plex"@
                    } else if connect {
                        "could not connect to Plex"@
                    } else if request {
                        "the request to Plex could not be sent"@
                    } else {
                        "no response from Plex"@
                    },
                ),
            ),
            ReplyView::Answered { status, body } => if status == 401 || status == 403 {
                live_reply_content(reply) == Err::<JsonView, LiveErrorView>(
                    LiveErrorView::TokenRejected(
                        "Plex rejected the configured token (HTTP "@ + dec(status as int) + ")"@,
                    ),
                )
            } else if 500 <= status && status < 600 {
                live_reply_content(reply) == Err::<JsonView, LiveErrorView>(
                    LiveErrorView::Unreachable(
                        "Plex could not serve the request (HTTP "@ + dec(status as int) + ")"@,
                    ),
                )
            } else if status < 200 || status >= 300 {
                live_reply_content(reply) == Err::<JsonView, LiveErrorView>(
                    LiveErrorView::Malformed(
                        "unexpected response from Plex (HTTP "@ + dec(status as int) + ")"@,
                    ),
                )
            } else {
                match body {
                    Err(_) => live_reply_content(reply) == Err::<JsonView, LiveErrorView>(
                        LiveErrorView::Unreachable("the response from Plex was cut short"@),
                    ),
                    Ok(text) => if trimmed(text).len() == 0 {
                        live_reply_content(reply) == Err::<JsonView, LiveErrorView>(
                            LiveErrorView::Malformed("Plex returned an empty body"@),
                        )
                    } else {
                        match parsed(text) {
                            Ok(v) => live_reply_content(reply) == Ok::<JsonView, LiveErrorView>(v),
                            Err(e) => live_reply_content(reply) == Err::<JsonView, LiveErrorView>(
                                LiveErrorView::Malformed("Plex did not return JSON: "@ + e),
                            ),
                        }
                    },
                }
            },
        },
{
}

/// A configured value counts without white space at its ends, and a base URL without slashes at its
/// end too; one of which nothing is left does not count.
pub proof fn blank_settings_do_not_count(raw: Option<Seq<char>>)
    ensures
        raw is None ==> setting_view(raw) is None && url_setting_view(raw) is None,
        raw matches Some(s) ==> setting_view(raw) == (if trimmed(s).len() == 0 {
            None
        } else {
            Some(trimmed(s))
        }),
        raw matches Some(s) ==> url_setting_view(raw) == (if without_trailing(
            trimmed(s),
            '/',
        ).len() == 0 {
            None
        } else {
            Some(without_trailing(trimmed(s), '/'))
        }),
{
}

/// A service is configured where both its URL and its credential are; the first that is missing is
/// named.
pub proof fn services_need_both_settings(
    url_name: Seq<char>,
    url: Option<Seq<char>>,
    key_name: Seq<char>,
    key: Option<Seq<char>>,
)
    ensures
        match (url_setting_view(url), setting_view(key)) {
            (None, _) => settings_pair(url_name, url, key_name, key) == Err::<
                (Seq<char>, Seq<char>),
                ErrorView,
            >(ErrorView::NotConfigured(url_name + " not set"@)),
            (Some(_), None) => settings_pair(url_name, url, key_name, key) == Err::<
                (Seq<char>, Seq<char>),
                ErrorView,
            >(ErrorView::NotConfigured(key_name + " not set"@)),
            (Some(base), Some(credential)) => settings_pair(url_name, url, key_name, key) == Ok::<
                (Seq<char>, Seq<char>),
                ErrorView,
            >((base, credential)),
        },
{
}

/// What is said where a setting is missing.
pub open spec fn is_missing(error: ToolError, name: Seq<char>) -> bool {
    error@ == ErrorView::NotConfigured(name + " not set"@)
}

/// Where a client of Radarr cannot be made, the setting that it lacks is named.
pub proof fn radarr_names_what_it_lacks(
    url: Option<&str>,
    key: Option<&str>,
    made: Result<RadarrClient, ToolError>,
)
    requires
        call_ensures(RadarrClient::from_env, (url, key), made),
    ensures
        made is Ok <==> url_setting_view(opt_str(url)) is Some && setting_view(opt_str(key)) is Some,
        made matches Ok(client) ==> url_setting_view(opt_str(url)) == Some(client.base())
            && setting_view(opt_str(key)) == Some(client.secret()),
        made matches Err(e) ==> (if url_setting_view(opt_str(url)) is None {
            is_missing(e, "RADARR_URL"@)
        } else {
            is_missing(e, "RADARR_API_KEY"@)
        }),
{
}

/// Where a client of Sonarr cannot be made, the setting that it lacks is named.
pub proof fn sonarr_names_what_it_lacks(
    url: Option<&str>,
    key: Option<&str>,
    made: Result<SonarrClient, ToolError>,
)
    requires
        call_ensures(SonarrClient::from_env, (url, key), made),
    ensures
        made is Ok <==> url_setting_view(opt_str(url)) is Some && setting_view(opt_str(key)) is Some,
        made matches Ok(client) ==> url_setting_view(opt_str(url)) == Some(client.base())
            && setting_view(opt_str(key)) == Some(client.secret()),
        made matches Err(e) ==> (if url_setting_view(opt_str(url)) is None {
            is_missing(e, "SONARR_URL"@)
        } else {
            is_missing(e, "SONARR_API_KEY"@)
        }),
{
}

/// Where a client of Prowlarr cannot be made, the setting that it lacks is named.
pub proof fn prowlarr_names_what_it_lacks(
    url: Option<&str>,
    key: Option<&str>,
    made: Result<ProwlarrClient, ToolError>,
)
    requires
        call_ensures(ProwlarrClient::from_env, (url, key), made),
    ensures
        made is Ok <==> url_setting_view(opt_str(url)) is Some && setting_view(opt_str(key)) is Some,
        made matches Ok(client) ==> url_setting_view(opt_str(url)) == Some(client.base())
            && setting_view(opt_str(key)) == Some(client.secret()),
        made matches Err(e) ==> (if url_setting_view(opt_str(url)) is None {
            is_missing(e, "PROWLARR_URL"@)
        } else {
            is_missing(e, "PROWLARR_API_KEY"@)
        }),
{
}

/// Where a client of Qtor cannot be made, the setting that it lacks is named.
pub proof fn qtor_names_what_it_lacks(
    url: Option<&str>,
    key: Option<&str>,
    made: Result<QtorClient, ToolError>,
)
    requires
        call_ensures(QtorClient::from_env, (url, key), made),
    ensures
        made is Ok <==> url_setting_view(opt_str(url)) is Some && setting_view(opt_str(key)) is Some,
        made matches Ok(client) ==> url_setting_view(opt_str(url)) == Some(client.base())
            && setting_view(opt_str(key)) == Some(client.secret()),
        made matches Err(e) ==> (if url_setting_view(opt_str(url)) is None {
            is_missing(e, "QTOR_URL"@)
        } else {
            is_missing(e, "QTOR_CREDS"@)
        }),
{
}

/// Where a client of Jellyseerr cannot be made, the setting that it lacks is named.
pub proof fn jellyseerr_names_what_it_lacks(
    url: Option<&str>,
    key: Option<&str>,
    made: Result<JellyseerrClient, ToolError>,
)
    requires
        call_ensures(JellyseerrClient::from_env, (url, key), made),
    ensures
        made is Ok <==> url_setting_view(opt_str(url)) is Some && setting_view(opt_str(key)) is Some,
        made matches Ok(client) ==> url_setting_view(opt_str(url)) == Some(client.base())
            && setting_view(opt_str(key)) == Some(client.secret()),
        made matches Err(e) ==> (if url_setting_view(opt_str(url)) is None {
            is_missing(e, "JELLYSEERR_URL"@)
        } else {
            is_missing(e, "JELLYSEERR_API_KEY"@)
        }),
{
}

/// Where a client of Plex cannot be made, the setting that it lacks is named.
pub proof fn plex_names_what_it_lacks(
    url: Option<&str>,
    key: Option<&str>,
    made: Result<PlexClient, ToolError>,
)
    requires
        call_ensures(PlexClient::from_env, (url, key), made),
    ensures
        made is Ok <==> url_setting_view(opt_str(url)) is Some && setting_view(opt_str(key)) is Some,
        made matches Ok(client) ==> url_setting_view(opt_str(url)) == Some(client.base())
            && setting_view(opt_str(key)) == Some(client.secret()),
        made matches Err(e) ==> (if url_setting_view(opt_str(url)) is None {
            is_missing(e, "PLEX_URL"@)
        } else {
            is_missing(e, "PLEX_TOKEN"@)
        }),
{
}

/// A client of TMDB needs a key, and asks the public service where no other is configured.
pub proof fn tmdb_needs_only_a_key(
    key: Option<&str>,
    url: Option<&str>,
    made: Result<TmdbClient, ToolError>,
)
    requires
        call_ensures(TmdbClient::from_env, (key, url), made),
    ensures
        made is Ok <==> setting_view(opt_str(key)) is Some,
        made matches Err(e) ==> is_missing(e, "TMDB_API_KEY"@),
        made matches Ok(client) ==> setting_view(opt_str(key)) == Some(client.secret())
            && client.base() == (match url_setting_view(opt_str(url)) {
            Some(base) => base,
            None => "https://api.themoviedb.org/3"@,
        }),
{
    assert("TMDB_API_KEY"@ + " not set"@ =~= "TMDB_API_KEY not set"@) by {
        reveal_strlit("TMDB_API_KEY");
        reveal_strlit(" not set");
        reveal_strlit("TMDB_API_KEY not set");
    }
}

/// A client of the taste memory needs only its URL.
pub proof fn taste_memory_needs_only_a_url(
    url: Option<&str>,
    made: Result<TasteMemoryClient, ToolError>,
)
    requires
        call_ensures(TasteMemoryClient::from_env, (url,), made),
    ensures
        made is Ok <==> url_setting_view(opt_str(url)) is Some,
        made matches Err(e) ==> is_missing(e, "MEDIA_TASTE_API_URL"@),
        made matches Ok(client) ==> url_setting_view(opt_str(url)) == Some(client.base()),
{
    assert("MEDIA_TASTE_API_URL"@ + " not set"@ =~= "MEDIA_TASTE_API_URL not set"@) by {
        reveal_strlit("MEDIA_TASTE_API_URL");
        reveal_strlit(" not set");
        reveal_strlit("MEDIA_TASTE_API_URL not set");
    }
}

/// Whether a request goes to a path of a service, with a credential and nothing to look up or to store.
pub open spec fn carries(
    request: RequestView,
    method: Method,
    url: Seq<char>,
    name: Seq<char>,
    credential: Seq<char>,
) -> bool {
    &&& request.method == method
    &&& request.url == url
    &&& request.headers.contains((name, credential))
    &&& request.query.len() == 0
    &&& request.body is None
}

/// Every request to a service goes to the path below its base, and carries its credential in the
/// header that the service reads it from. Plex is asked for JSON.
pub proof fn requests_carry_the_credential(
    radarr: RadarrClient,
    sonarr: SonarrClient,
    prowlarr: ProwlarrClient,
    qtor: QtorClient,
    jellyseerr: JellyseerrClient,
    plex: PlexClient,
    method: Method,
    path: Seq<char>,
)
    ensures
        carries(
            radarr.call_view(method, path),
            method,
            radarr.base() + path,
            "X-Api-Key"@,
            radarr.secret(),
        ),
        carries(
            sonarr.call_view(method, path),
            method,
            sonarr.base() + path,
            "X-Api-Key"@,
            sonarr.secret(),
        ),
        carries(
            prowlarr.call_view(method, path),
            method,
            prowlarr.base() + path,
            "X-Api-Key"@,
            prowlarr.secret(),
        ),
        carries(
            qtor.call_view(method, path),
            method,
            qtor.base() + path,
            "Authorization"@,
            qtor.secret(),
        ),
        carries(
            jellyseerr.call_view(method, path),
            method,
            jellyseerr.base() + path,
            "X-Api-Key"@,
            jellyseerr.secret(),
        ),
        carries(
            plex.read_view(path),
            Method::Get,
            plex.base() + path,
            "X-Plex-Token"@,
            plex.secret(),
        ),
        radarr.call_view(method, path).headers.len() == 1,
        sonarr.call_view(method, path).headers.len() == 1,
        prowlarr.call_view(method, path).headers.len() == 1,
        qtor.call_view(method, path).headers.len() == 1,
        plex.read_view(path).headers.len() == 2,
        plex.read_view(path).headers.contains(("Accept"@, "application/json"@)),
{
    assert(plex.read_view(path).headers[1] == ("Accept"@, "application/json"@));
    assert(radarr.call_view(method, path).headers[0] == ("X-Api-Key"@, radarr.secret()));
    assert(sonarr.call_view(method, path).headers[0] == ("X-Api-Key"@, sonarr.secret()));
    assert(prowlarr.call_view(method, path).headers[0] == ("X-Api-Key"@, prowlarr.secret()));
    assert(qtor.call_view(method, path).headers[0] == ("Authorization"@, qtor.secret()));
    assert(jellyseerr.call_view(method, path).headers[1] == ("X-Api-Key"@, jellyseerr.secret()));
    assert(plex.read_view(path).headers[0] == ("X-Plex-Token"@, plex.secret()));
}

/// The taste memory is asked for JSON, about one account where one is named, and told in a post.
pub proof fn memory_is_asked_for_json(
    memory: TasteMemoryClient,
    account: Option<Seq<char>>,
    body: JsonView,
)
    ensures
        memory.signals_view(account).method == Method::Get,
        memory.signals_view(account).url == memory.base() + "/media/taste/signals"@,
        memory.signals_view(account).headers == seq![("Accept"@, "application/json"@)],
        memory.signals_view(account).query == (match account {
            Some(id) => seq![("account_id"@, id)],
            None => Seq::empty(),
        }),
        memory.signals_view(account).body is None,
        memory.engagement_view(body).method == Method::Post,
        memory.engagement_view(body).url == memory.base() + "/media/taste/engagement"@,
        memory.engagement_view(body).headers == seq![("Accept"@, "application/json"@)],
        memory.engagement_view(body).query.len() == 0,
        memory.engagement_view(body).body == Some(body),
{
    let one = seq![("Accept"@, "application/json"@)];
    assert(memory.signals_view(account).headers =~= one);
    assert(memory.engagement_view(body).headers =~= one);
    match account {
        Some(id) => {
            assert(memory.signals_view(account).query =~= seq![("account_id"@, id)]);
        },
        None => {},
    }
}

} // verus!
