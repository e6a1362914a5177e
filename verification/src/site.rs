//! The estate's own pages and settings: which sections each page shows, the
//! page title and description, the headers of the embedded files, the
//! listening port and the settings of the notes API.
use vstd::prelude::*;

use crate::notes::opt_chars;
use crate::signup::NotesApi;
use crate::text::{parse_u16, parsed_u16};

verus! {

/// The pages that the estate renders.
#[derive(Clone, Copy, PartialEq, Eq, Structural, Debug)]
pub enum Page {
    Home,
    Dashboard,
}

/// The sections that make up the body of a page.
#[derive(Clone, Copy, PartialEq, Eq, Structural, Debug)]
pub enum Section {
    Hero,
    LxsNarrative,
    Compose,
    Plumbing,
    Proof,
    PoweredBy,
    FinalCta,
    Dashboard,
}

/// The body of `page`: the dashboard alone, or the sections of the home page
/// in their order.
pub open spec fn sections_of(page: Page) -> Seq<Section> {
    match page {
        Page::Dashboard => seq![Section::Dashboard],
        Page::Home => seq![
            Section::Hero,
            Section::LxsNarrative,
            Section::Compose,
            Section::Plumbing,
            Section::Proof,
            Section::PoweredBy,
            Section::FinalCta,
        ],
    }
}

/// The sections of the body of `page`, between the header and the footer.
pub fn page_body(page: Page) -> (res: Vec<Section>)
    ensures
        res@ == sections_of(page),
{
    if page == Page::Dashboard {
        vec![Section::Dashboard]
    } else {
        vec![
            Section::Hero,
            Section::LxsNarrative,
            Section::Compose,
            Section::Plumbing,
            Section::Proof,
            Section::PoweredBy,
            Section::FinalCta,
        ]
    }
}

/// The title of every page.
pub fn page_title() -> (res: String)
    ensures
        res@ == "Proof Estate \u{2014} Rust \u{b7} composed with the auth LXS"@,
{
    "Proof Estate \u{2014} Rust \u{b7} composed with the auth LXS".to_owned()
}

/// The description of every page.
pub fn page_meta() -> (res: &'static str)
    ensures
        res@
            == "A Rust estate that composes the auth LXS binary: full signin/signup, one shared identity, zero rebuilds on the server."@,
{
    "A Rust estate that composes the auth LXS binary: full signin/signup, one shared identity, zero rebuilds on the server."
}

/// The files that the estate embeds and serves itself.
#[derive(Clone, Copy, PartialEq, Eq, Structural, Debug)]
pub enum StaticAsset {
    Style,
    Logo,
    LogoMark,
}

/// The headers that an embedded file is served with.
#[derive(Clone, Debug, PartialEq)]
pub struct AssetHeaders {
    pub content_type: &'static str,
    pub cache_control: Option<&'static str>,
}

/// The stylesheet goes out as UTF-8 CSS without a cache header; the two logos
/// as PNG images that may be cached publicly for a day.
pub fn asset_headers(asset: StaticAsset) -> (res: AssetHeaders)
    ensures
        asset == StaticAsset::Style ==> res.content_type@ == "text/css; charset=utf-8"@
            && res.cache_control is None,
        asset != StaticAsset::Style ==> res.content_type@ == "image/png"@ && (res.cache_control
            matches Some(c) && c@ == "public, max-age=86400"@),
{
    match asset {
        StaticAsset::Style => AssetHeaders {
            content_type: "text/css; charset=utf-8",
            cache_control: None,
        },
        _ => AssetHeaders {
            content_type: "image/png",
            cache_control: Some("public, max-age=86400"),
        },
    }
}

/// The port to listen on: `PORT` where it parses as a port number, else
/// `SERVER_PORT` where it does, else 8500.
pub open spec fn port_of(port: Option<Seq<char>>, server_port: Option<Seq<char>>) -> u16 {
    let first = match port {
        Some(p) => parsed_u16(p),
        None => None,
    };
    let second = match server_port {
        Some(p) => parsed_u16(p),
        None => None,
    };
    match first {
        Some(n) => n,
        None => match second {
            Some(n) => n,
            None => 8500,
        },
    }
}

/// Chooses the port from the values of `PORT` and `SERVER_PORT`, each `None`
/// where the variable is unset or not Unicode.
pub fn resolve_port(port: Option<String>, server_port: Option<String>) -> (res: u16)
    ensures
        res == port_of(opt_chars(port), opt_chars(server_port)),
{
    if let Some(p) = &port {
        if let Some(n) = parse_u16(p.as_str()) {
            return n;
        }
    }
    if let Some(p) = &server_port {
        if let Some(n) = parse_u16(p.as_str()) {
            return n;
        }
    }
    8500
}

/// Where the notes live and how the notes API is set up.
#[derive(Clone, Debug, PartialEq)]
pub struct NotesSettings {
    /// The address of the database server.
    pub mongodb_uri: String,
    /// The database to use where the address names none.
    pub default_database: String,
    /// The server to fall back on where the address cannot be used.
    pub fallback_uri: String,
    /// The database on the fallback server.
    pub fallback_database: String,
    pub api: NotesApi,
}

/// `o`, or `default` where it is `None`.
pub open spec fn or_default(o: Option<Seq<char>>, default: Seq<char>) -> Seq<char> {
    match o {
        Some(s) => s,
        None => default,
    }
}

fn value_or(o: Option<String>, default: &str) -> (res: String)
    ensures
        res@ == or_default(opt_chars(o), default@),
{
    match o {
        Some(s) => s,
        None => default.to_owned(),
    }
}

/// The settings from the values of `MONGODB_URI`, `JWT_SECRET` and
/// `NOTIFICATIONS_URL`, each `None` where the variable is unset or not
/// Unicode: a local database by default, an empty secret, and no
/// notifications service.
pub fn notes_settings(
    mongodb_uri: Option<String>,
    jwt_secret: Option<String>,
    notifications_url: Option<String>,
) -> (res: NotesSettings)
    ensures
        res.mongodb_uri@ == or_default(
            opt_chars(mongodb_uri),
            "mongodb://localhost:27017/proof_rust_proof_rust"@,
        ),
        res.default_database@ == "proof_rust_proof_rust"@,
        res.fallback_uri@ == "mongodb://localhost:27017"@,
        res.fallback_database@ == "eco"@,
        res.api@.jwt_secret == or_default(opt_chars(jwt_secret), Seq::empty()),
        res.api@.notifications_url == or_default(opt_chars(notifications_url), Seq::empty()),
{
    proof {
        reveal_strlit("");
    }
    NotesSettings {
        mongodb_uri: value_or(mongodb_uri, "mongodb://localhost:27017/proof_rust_proof_rust"),
        default_database: "proof_rust_proof_rust".to_owned(),
        fallback_uri: "mongodb://localhost:27017".to_owned(),
        fallback_database: "eco".to_owned(),
        api: NotesApi {
            jwt_secret: value_or(jwt_secret, ""),
            notifications_url: value_or(notifications_url, ""),
        },
    }
}

} // verus!
