//! Clients of the services that the media domain works with.
//!
//! A client holds where a service is and how to authenticate. It turns each operation into the
//! request to send, and each reply into the JSON it carries or the error it stands for; sending is
//! the caller's part.
use vstd::prelude::*;

use crate::http::{body_view, status_line, status_text, HttpReply, ReplyView};
use crate::json::{jsons, lemma_array_view, parse, parsed, read_view, Fields, Json, JsonView};
use crate::text::{
    cat2, cat3, cat4, cat5, first_chars, opt_str, opt_text, owned, strip_trailing, take_chars, trim,
    trimmed, without_trailing,
};
use crate::tool::{answer, ErrorView, ToolError};

pub mod jellyseerr;
pub mod plex;
pub mod prowlarr;
pub mod qtor;
pub mod radarr;
pub mod sonarr;
pub mod tmdb;

verus! {

/// How long to wait for a reply of one of these services, in seconds.
pub const REQUEST_TIMEOUT_SECS: u64 = 15;

/// A service of the media domain.
#[derive(Debug, Clone, Copy, PartialEq, Eq, Structural)]
pub enum Service {
    Radarr,
    Sonarr,
    Plex,
    Tmdb,
    Prowlarr,
    DownloadClient,
    MediaRequests,
}

impl Service {
    /// The service's name in error messages.
    pub open spec fn label_view(self) -> Seq<char> {
        match self {
            Service::Radarr => "Radarr"@,
            Service::Sonarr => "Sonarr"@,
            Service::Plex => "Plex"@,
            Service::Tmdb => "TMDb"@,
            Service::Prowlarr => "Prowlarr"@,
            Service::DownloadClient => "Download client"@,
            Service::MediaRequests => "<media-service>"@,
        }
    }

    /// The service's name in a message about a missing resource.
    pub open spec fn owner_label_view(self) -> Seq<char> {
        match self {
            Service::DownloadClient => "Download-client"@,
            _ => self.label_view(),
        }
    }

    /// The service's name in a message about a body that is not JSON.
    pub open spec fn source_label_view(self) -> Seq<char> {
        match self {
            Service::DownloadClient => "download client"@,
            _ => self.label_view(),
        }
    }

    /// The service's name in error messages.
    pub fn label(self) -> (r: &'static str)
        ensures
            r@ == self.label_view(),
    {
        match self {
            Service::Radarr => "Radarr",
            Service::Sonarr => "Sonarr",
            Service::Plex => "Plex",
            Service::Tmdb => "TMDb",
            Service::Prowlarr => "Prowlarr",
            Service::DownloadClient => "Download client",
            Service::MediaRequests => "<media-service>",
        }
    }

    /// The service's name in a message about a missing resource.
    pub fn owner_label(self) -> (r: &'static str)
        ensures
            r@ == self.owner_label_view(),
    {
        match self {
            Service::DownloadClient => "Download-client",
            _ => self.label(),
        }
    }

    /// The service's name in a message about a body that is not JSON.
    pub fn source_label(self) -> (r: &'static str)
        ensures
            r@ == self.source_label_view(),
    {
        match self {
            Service::DownloadClient => "download client",
            _ => self.label(),
        }
    }
}

/// What a body that was parsed is worth: its content, or an error that names the sender.
pub open spec fn parsed_content(sender: Seq<char>, read: Result<JsonView, Seq<char>>) -> Result<
    JsonView,
    ErrorView,
> {
    match read {
        Ok(v) => Ok(v),
        Err(e) => Err(ErrorView::Http("Invalid JSON from "@ + sender + ": "@ + e)),
    }
}

/// Takes a body that was parsed as [`parsed_content`] says.
pub fn take_parsed(sender: &str, read: Result<Json, String>) -> (r: Result<Json, ToolError>)
    ensures
        answer(r) == parsed_content(sender@, read_view(read)),
{
    match read {
        Ok(v) => Ok(v),
        Err(e) => Err(ToolError::Http(cat4("Invalid JSON from ", sender, ": ", e.as_str()))),
    }
}

/// What a JSON body is worth: nothing but white space is an empty object, other text is what it
/// parses as, and where it does not parse the error names the sender.
pub open spec fn body_content(sender: Seq<char>, text: Seq<char>) -> Result<JsonView, ErrorView> {
    if trimmed(text).len() == 0 {
        Ok(JsonView::Object(Seq::empty()))
    } else {
        parsed_content(sender, parsed(text))
    }
}

/// Reads a body as [`body_content`] says.
pub fn read_body(sender: &str, text: &str) -> (r: Result<Json, ToolError>)
    ensures
        answer(r) == body_content(sender@, text@),
{
    if trim(text).is_empty() {
        return Ok(Fields::new().object());
    }
    take_parsed(sender, parse(text))
}

/// The first 200 characters of a body, or nothing where it could not be read.
pub open spec fn excerpt(body: Result<Seq<char>, Seq<char>>) -> Seq<char> {
    match body {
        Ok(text) => first_chars(text, 200),
        Err(_) => ""@,
    }
}

/// The first 200 characters of a body, or nothing where it could not be read.
pub fn body_excerpt(body: &Result<String, String>) -> (r: &str)
    ensures
        r@ == excerpt(body_view(*body)),
{
    match body {
        Ok(text) => take_chars(text.as_str(), 200),
        Err(_) => "",
    }
}

/// What a response of a service stands for, by its status: a missing resource, a refused request, a
/// service that is down, or else the body's content.
pub open spec fn response_content(
    service: Service,
    status: u16,
    body: Result<Seq<char>, Seq<char>>,
) -> Result<JsonView, ErrorView> {
    if status == 404 {
        Err(ErrorView::NotFound(service.owner_label_view() + " resource not found"@))
    } else if 400 <= status <= 499 {
        Err(
            ErrorView::Http(
                service.label_view() + " API error (HTTP "@ + status_line(status) + "): "@
                    + excerpt(body),
            ),
        )
    } else if 500 <= status <= 599 {
        Err(
            ErrorView::Http(
                service.label_view() + " unavailable (HTTP "@ + status_line(status) + ")"@,
            ),
        )
    } else {
        match body {
            Ok(text) => body_content(service.source_label_view(), text),
            Err(e) => Err(ErrorView::Http(e)),
        }
    }
}

/// Reads a response as [`response_content`] says.
pub fn map_response(service: Service, status: u16, body: &Result<String, String>) -> (r: Result<
    Json,
    ToolError,
>)
    ensures
        answer(r) == response_content(service, status, body_view(*body)),
{
    if status == 404 {
        return Err(ToolError::NotFound(cat2(service.owner_label(), " resource not found")));
    }
    if 400 <= status && status <= 499 {
        let line = status_text(status);
        return Err(
            ToolError::Http(
                cat5(
                    service.label(),
                    " API error (HTTP ",
                    line.as_str(),
                    "): ",
                    body_excerpt(body),
                ),
            ),
        );
    }
    if 500 <= status && status <= 599 {
        let line = status_text(status);
        return Err(
            ToolError::Http(cat4(service.label(), " unavailable (HTTP ", line.as_str(), ")")),
        );
    }
    match body {
        Ok(text) => read_body(service.source_label(), text.as_str()),
        Err(e) => Err(ToolError::Http(owned(e.as_str()))),
    }
}

/// What a reply of a service stands for: the failure to get one, or the response's content.
pub open spec fn reply_content(service: Service, reply: ReplyView) -> Result<JsonView, ErrorView> {
    match reply {
        ReplyView::Failed { text, .. } => Err(
            ErrorView::Http(service.label_view() + " unavailable: "@ + text),
        ),
        ReplyView::Answered { status, body } => response_content(service, status, body),
    }
}

/// Reads a reply as [`reply_content`] says.
pub fn map_reply(service: Service, reply: &HttpReply) -> (r: Result<Json, ToolError>)
    ensures
        answer(r) == reply_content(service, reply@),
{
    match reply {
        HttpReply::Failed(f) => Err(
            ToolError::Http(cat3(service.label(), " unavailable: ", f.text.as_str())),
        ),
        HttpReply::Answered { status, body } => map_response(service, *status, body),
    }
}

/// The library that a reply lists; nothing where the reply is an error or no list.
pub open spec fn library_content(service: Service, reply: ReplyView) -> Seq<JsonView> {
    match reply_content(service, reply) {
        Ok(JsonView::Array(items)) => items,
        _ => Seq::empty(),
    }
}

/// Reads a library listing as [`library_content`] says.
pub fn map_library(service: Service, reply: &HttpReply) -> (r: Vec<Json>)
    ensures
        jsons(r@) == library_content(service, reply@),
{
    broadcast use lemma_array_view;

    match map_reply(service, reply) {
        Ok(Json::Array(items)) => items,
        _ => {
            let none: Vec<Json> = Vec::new();
            assert(jsons(none@) =~= Seq::empty());
            none
        },
    }
}

/// What a reply to a removal stands for: whether there was anything to remove.
pub open spec fn removal_content(service: Service, reply: ReplyView) -> Result<bool, ErrorView> {
    match reply_content(service, reply) {
        Ok(_) => Ok(true),
        Err(ErrorView::NotFound(_)) => Ok(false),
        Err(e) => Err(e),
    }
}

/// The content of a removal's result.
pub open spec fn removal(r: Result<bool, ToolError>) -> Result<bool, ErrorView> {
    match r {
        Ok(b) => Ok(b),
        Err(e) => Err(e@),
    }
}

/// Reads the reply to a removal as [`removal_content`] says.
pub fn map_removal(service: Service, reply: &HttpReply) -> (r: Result<bool, ToolError>)
    ensures
        removal(r) == removal_content(service, reply@),
{
    match map_reply(service, reply) {
        Ok(_) => Ok(true),
        Err(ToolError::NotFound(_)) => Ok(false),
        Err(e) => Err(e),
    }
}

/// A configured value: trimmed, and absent where nothing is left.
pub open spec fn setting_view(raw: Option<Seq<char>>) -> Option<Seq<char>> {
    match raw {
        Some(s) => if trimmed(s).len() > 0 {
            Some(trimmed(s))
        } else {
            None
        },
        None => None,
    }
}

/// A configured value: trimmed, and absent where nothing is left.
pub fn setting(raw: Option<&str>) -> (r: Option<String>)
    ensures
        opt_text(r) == setting_view(opt_str(raw)),
{
    match raw {
        Some(s) => {
            let t = trim(s);
            if t.is_empty() {
                None
            } else {
                Some(owned(t))
            }
        },
        None => None,
    }
}

/// A configured base URL: trimmed, without trailing slashes, and absent where nothing is left.
pub open spec fn url_setting_view(raw: Option<Seq<char>>) -> Option<Seq<char>> {
    match raw {
        Some(s) => if without_trailing(trimmed(s), '/').len() > 0 {
            Some(without_trailing(trimmed(s), '/'))
        } else {
            None
        },
        None => None,
    }
}

/// A configured base URL: trimmed, without trailing slashes, and absent where nothing is left.
pub fn url_setting(raw: Option<&str>) -> (r: Option<String>)
    ensures
        opt_text(r) == url_setting_view(opt_str(raw)),
{
    match raw {
        Some(s) => {
            let t = strip_trailing(trim(s), '/');
            if t.is_empty() {
                None
            } else {
                Some(owned(t))
            }
        },
        None => None,
    }
}

/// A base URL and a credential out of their configured values, or the error that names the first
/// one missing.
pub open spec fn settings_pair(
    url_name: Seq<char>,
    url: Option<Seq<char>>,
    key_name: Seq<char>,
    key: Option<Seq<char>>,
) -> Result<(Seq<char>, Seq<char>), ErrorView> {
    match url_setting_view(url) {
        None => Err(ErrorView::NotConfigured(url_name + " not set"@)),
        Some(base) => match setting_view(key) {
            None => Err(ErrorView::NotConfigured(key_name + " not set"@)),
            Some(credential) => Ok((base, credential)),
        },
    }
}

/// Reads a base URL and a credential as [`settings_pair`] says.
pub fn read_settings(url_name: &str, url: Option<&str>, key_name: &str, key: Option<&str>) -> (r:
    Result<(String, String), ToolError>)
    ensures
        match r {
            Ok(p) => settings_pair(url_name@, opt_str(url), key_name@, opt_str(key)) == Ok::<
                (Seq<char>, Seq<char>),
                ErrorView,
            >((p.0@, p.1@)),
            Err(e) => settings_pair(url_name@, opt_str(url), key_name@, opt_str(key)) == Err::<
                (Seq<char>, Seq<char>),
                ErrorView,
            >(e@),
        },
{
    match url_setting(url) {
        None => Err(ToolError::NotConfigured(cat2(url_name, " not set"))),
        Some(base) => match setting(key) {
            None => Err(ToolError::NotConfigured(cat2(key_name, " not set"))),
            Some(credential) => Ok((base, credential)),
        },
    }
}

} // verus!
