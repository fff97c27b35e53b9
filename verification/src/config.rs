//! Service configuration, from the values of its environment variables.

use vstd::prelude::*;

use crate::text::{
    clean_entry, join_commas, lemma_split_commas_pieces, lemma_split_join,
    lemma_split_commas_rejoins, lemma_trimmed_nonempty_clean,
    lemma_trimmed_nonempty_keeps_every_entry, lemma_trimmed_nonempty_of_clean, same_text,
    split_commas, split_trimmed_nonempty, string_views, trim_each, trimmed, trimmed_nonempty,
};

verus! {

/// How log lines are written.
#[derive(Debug, Clone, Copy, PartialEq, Eq, Structural)]
pub enum LogFormat {
    Pretty,
    Json,
}

/// The service's settings.
#[derive(Debug, Clone)]
pub struct Config {
    pub database_url: String,
    pub bind_addr: String,
    pub allowed_origins: Vec<String>,
    pub log_format: LogFormat,
}

/// Why a configuration was refused.
#[derive(Debug)]
pub enum ConfigError {
    /// `LOG_FORMAT` held this value, which is neither `pretty` nor `json`.
    InvalidLogFormat(String),
}

/// What `format!("{:?}", s)` writes for a string `s`: its `Debug` form,
/// quoted and escaped.
pub uninterp spec fn debug_quoted(s: Seq<char>) -> Seq<char>;

/// `format!("{:?}", text)`, the `Debug` form of a `str` from
/// `<str as core::fmt::Debug>::fmt`. Claimed: the result is that form of
/// `text`, which depends on `text` alone.
#[verifier::external_body]
fn debug_form(text: &str) -> (r: String)
    ensures
        r@ == debug_quoted(text@),
{
    format!("{:?}", text)
}

impl ConfigError {
    /// The error's message (what its `Display` shows).
    pub open spec fn text_of(self) -> Seq<char> {
        match self {
            ConfigError::InvalidLogFormat(v) => "invalid LOG_FORMAT "@ + debug_quoted(v@)
                + ": expected \"pretty\" or \"json\""@,
        }
    }

    /// The error's message: `invalid LOG_FORMAT {value:?}: expected
    /// "pretty" or "json"`.
    pub fn describe(&self) -> (r: String)
        ensures
            r@ == self.text_of(),
    {
        match self {
            ConfigError::InvalidLogFormat(v) => {
                let quoted = debug_form(v.as_str());
                "invalid LOG_FORMAT ".to_owned().concat(quoted.as_str()).concat(
                    ": expected \"pretty\" or \"json\"",
                )
            },
        }
    }
}

/// `DATABASE_URL` when it is not set.
pub open spec fn default_database_url() -> Seq<char> {
    "sqlite://data/dev.db"@
}

/// `BIND_ADDR` when it is not set.
pub open spec fn default_bind_addr() -> Seq<char> {
    "0.0.0.0:4563"@
}

/// `LOG_FORMAT` when it is not set.
pub open spec fn default_log_format_text() -> Seq<char> {
    "pretty"@
}

/// The value of a variable, or `default` where it is not set.
pub open spec fn setting_or(value: Option<String>, default: Seq<char>) -> Seq<char> {
    match value {
        Some(s) => s@,
        None => default,
    }
}

/// The log format that a `LOG_FORMAT` value names, if it names one.
pub open spec fn log_format_named(text: Seq<char>) -> Option<LogFormat> {
    if text == "pretty"@ {
        Some(LogFormat::Pretty)
    } else if text == "json"@ {
        Some(LogFormat::Json)
    } else {
        None
    }
}

/// The origins that an `ALLOWED_ORIGINS` value lists: its comma-separated
/// entries, trimmed, without the empty ones; none where it is not set.
pub open spec fn origins_listed(value: Option<String>) -> Seq<Seq<char>> {
    match value {
        Some(s) => trimmed_nonempty(split_commas(s@)),
        None => Seq::empty(),
    }
}

/// Reads a `LOG_FORMAT` value: `pretty` or `json`, exactly.
pub fn parse_log_format(text: &str) -> (r: Result<LogFormat, ConfigError>)
    ensures
        log_format_named(text@) matches Some(f) ==> r == Ok::<LogFormat, ConfigError>(f),
        log_format_named(text@) is None ==> (r matches Err(ConfigError::InvalidLogFormat(v))
            && v@ == text@),
{
    if same_text(text, "pretty") {
        Ok(LogFormat::Pretty)
    } else if same_text(text, "json") {
        Ok(LogFormat::Json)
    } else {
        Err(ConfigError::InvalidLogFormat(text.to_owned()))
    }
}

/// Reads an `ALLOWED_ORIGINS` value: comma-separated, each entry trimmed,
/// empty entries dropped.
pub fn parse_allowed_origins(text: &str) -> (r: Vec<String>)
    ensures
        string_views(r@) == trimmed_nonempty(split_commas(text@)),
        string_views(r@) == trim_each(split_commas(text@)).filter(|t: Seq<char>| t.len() > 0),
{
    split_trimmed_nonempty(text)
}

/// Every origin that an `ALLOWED_ORIGINS` value lists is clean: not empty,
/// without white space at either end, without a comma.
pub proof fn lemma_listed_origins_clean(value: Option<String>)
    ensures
        forall|i: int|
            0 <= i < origins_listed(value).len() ==> clean_entry(#[trigger] origins_listed(value)[i]),
{
    if let Some(s) = value {
        lemma_split_commas_pieces(s@);
        lemma_trimmed_nonempty_clean(split_commas(s@));
    }
}

/// No origin is lost from an `ALLOWED_ORIGINS` value: the value is cut at
/// every comma (the pieces rejoined with commas give it back), and every
/// piece that is not blank is listed, trimmed; every listed origin is such
/// a piece, trimmed. So `"a, b"` lists both `a` and `b`.
pub proof fn lemma_listed_origins_complete(value: String)
    ensures
        join_commas(split_commas(value@)) == value@,
        forall|i: int|
            0 <= i < split_commas(value@).len() && trimmed(#[trigger] split_commas(value@)[i]).len()
                > 0 ==> origins_listed(Some(value)).contains(trimmed(split_commas(value@)[i])),
        forall|j: int|
            0 <= j < origins_listed(Some(value)).len() ==> exists|i: int|
                0 <= i < split_commas(value@).len() && trimmed(#[trigger] split_commas(value@)[i])
                    == #[trigger] origins_listed(Some(value))[j],
{
    lemma_split_commas_rejoins(value@);
    lemma_trimmed_nonempty_keeps_every_entry(split_commas(value@));
}

/// Writing clean origins as a comma-separated `ALLOWED_ORIGINS` value and
/// reading it back gives the same origins, in the same order.
pub proof fn lemma_origins_round_trip(xs: Seq<Seq<char>>)
    requires
        forall|i: int| 0 <= i < xs.len() ==> clean_entry(#[trigger] xs[i]),
    ensures
        trimmed_nonempty(split_commas(join_commas(xs))) == xs,
{
    if xs.len() == 0 {
        assert(split_commas(join_commas(xs)) =~= seq![Seq::<char>::empty()]);
        let one = seq![Seq::<char>::empty()];
        assert(one.last() == Seq::<char>::empty());
        assert(trimmed(one.last()).len() == 0);
        assert(one.drop_last() =~= Seq::<Seq<char>>::empty());
        assert(trimmed_nonempty(one.drop_last()) == Seq::<Seq<char>>::empty());
        assert(trimmed_nonempty(one) =~= xs);
    } else {
        assert forall|i: int| 0 <= i < xs.len() implies !(#[trigger] xs[i]).contains(',') by {
            assert(clean_entry(xs[i]));
        }
        lemma_split_join(xs);
        lemma_trimmed_nonempty_of_clean(xs);
    }
}

impl Config {
    /// The configuration that the variables `DATABASE_URL`, `BIND_ADDR`,
    /// `ALLOWED_ORIGINS` and `LOG_FORMAT` give, each `None` where it is not
    /// set (or not Unicode): defaults for the unset ones, and an error where
    /// `LOG_FORMAT` names no format.
    pub fn from_vars(
        database_url: Option<String>,
        bind_addr: Option<String>,
        allowed_origins: Option<String>,
        log_format: Option<String>,
    ) -> (r: Result<Config, ConfigError>)
        ensures
            r is Ok <==> log_format_named(setting_or(log_format, default_log_format_text())) is Some,
            r matches Ok(c) ==> {
                &&& c.database_url@ == setting_or(database_url, default_database_url())
                &&& c.bind_addr@ == setting_or(bind_addr, default_bind_addr())
                &&& string_views(c.allowed_origins@) == origins_listed(allowed_origins)
                &&& Some(c.log_format) == log_format_named(
                    setting_or(log_format, default_log_format_text()),
                )
            },
            r matches Err(ConfigError::InvalidLogFormat(v)) ==> v@ == setting_or(
                log_format,
                default_log_format_text(),
            ),
    {
        let database_url = match database_url {
            Some(url) => url,
            None => "sqlite://data/dev.db".to_owned(),
        };
        let bind_addr = match bind_addr {
            Some(addr) => addr,
            None => "0.0.0.0:4563".to_owned(),
        };
        let allowed_origins = match allowed_origins {
            Some(origins) => parse_allowed_origins(origins.as_str()),
            None => {
                let none: Vec<String> = Vec::new();
                assert(string_views(none@) =~= Seq::<Seq<char>>::empty());
                none
            },
        };
        let log_format = match log_format {
            Some(text) => parse_log_format(text.as_str()),
            None => parse_log_format("pretty"),
        };
        let log_format = match log_format {
            Ok(format) => format,
            Err(err) => return Err(err),
        };
        Ok(Config { database_url, bind_addr, allowed_origins, log_format })
    }
}

} // verus!
