//! Credential record store: persisted token records for the two providers,
//! user settings, and the per-provider expiry policy.
//!
//! The store owns an in-memory image of the durable file's three logical keys.
//! Callers pass the current Unix time explicitly; the store never reads a
//! clock, so every operation is a pure function of its arguments.

use vstd::prelude::*;

verus! {

/// Safety margin, in seconds, subtracted from a token's nominal lifetime
/// before it is considered expired, so a token is never used mid-expiry.
pub const EXPIRY_BUFFER_SECS: i64 = 300;

/// Token record for the Baidu Netdisk provider.
#[derive(Debug, PartialEq)]
pub struct BaiduTokenData {
    pub access_token: String,
    pub refresh_token: String,
    pub expires_in: i64,
    pub scope: String,
    pub client_id: Option<String>,
    pub client_secret: Option<String>,
    pub redirect_uri: Option<String>,
    /// Unix time (seconds) of the most recent save; stamped by the store,
    /// never by the caller.
    pub stored_at: Option<i64>,
}

/// Token record for the Qwen AI provider.
#[derive(Debug, PartialEq)]
pub struct QwenTokenData {
    pub access_token: String,
    pub refresh_token: Option<String>,
    pub expires_in: Option<i64>,
    pub api_key: Option<String>,
    /// Unix time (seconds) of the most recent save; stamped by the store,
    /// never by the caller.
    pub stored_at: Option<i64>,
}

/// User preferences: a few known fields plus an open extension map of
/// raw key/value pairs.
#[derive(Debug, PartialEq)]
pub struct UserSettings {
    pub theme: Option<String>,
    pub font_size: Option<i32>,
    /// Line height in thousandths (so 1500 stands for one and a half lines).
    pub line_height_milli: Option<i64>,
    pub language: Option<String>,
    pub extra: Vec<(String, String)>,
}

fn clone_opt_string(o: &Option<String>) -> (r: Option<String>)
    ensures
        r == *o,
{
    match o {
        Some(s) => Some(s.clone()),
        None => None,
    }
}

impl Clone for BaiduTokenData {
    fn clone(&self) -> (r: Self)
        ensures
            r == *self,
    {
        BaiduTokenData {
            access_token: self.access_token.clone(),
            refresh_token: self.refresh_token.clone(),
            expires_in: self.expires_in,
            scope: self.scope.clone(),
            client_id: clone_opt_string(&self.client_id),
            client_secret: clone_opt_string(&self.client_secret),
            redirect_uri: clone_opt_string(&self.redirect_uri),
            stored_at: self.stored_at,
        }
    }
}

impl Clone for QwenTokenData {
    fn clone(&self) -> (r: Self)
        ensures
            r == *self,
    {
        QwenTokenData {
            access_token: self.access_token.clone(),
            refresh_token: clone_opt_string(&self.refresh_token),
            expires_in: self.expires_in,
            api_key: clone_opt_string(&self.api_key),
            stored_at: self.stored_at,
        }
    }
}

/// Equality of settings records up to the representation of the extension
/// map, whose entries are compared by their contents.
pub open spec fn settings_equal(a: UserSettings, b: UserSettings) -> bool {
    a.theme == b.theme && a.font_size == b.font_size
        && a.line_height_milli == b.line_height_milli && a.language == b.language
        && a.extra@ == b.extra@
}

impl Clone for UserSettings {
    fn clone(&self) -> (r: Self)
        ensures
            settings_equal(r, *self),
    {
        let mut extra: Vec<(String, String)> = Vec::new();
        let mut i: usize = 0;
        while i < self.extra.len()
            invariant
                i <= self.extra.len(),
                extra@ =~= self.extra@.take(i as int),
            decreases self.extra.len() - i,
        {
            let pair = (self.extra[i].0.clone(), self.extra[i].1.clone());
            extra.push(pair);
            i = i + 1;
        }
        proof {
            assert(extra@ =~= self.extra@);
        }
        UserSettings {
            theme: clone_opt_string(&self.theme),
            font_size: self.font_size,
            line_height_milli: self.line_height_milli,
            language: clone_opt_string(&self.language),
            extra,
        }
    }
}

/// A record is past its useful life when the time elapsed since it was stored
/// reaches its nominal lifetime less the safety buffer.
pub open spec fn expired_by(stored_at: int, expires_in: int, now: int) -> bool {
    now - stored_at >= expires_in - EXPIRY_BUFFER_SECS
}

/// Baidu policy: a record that was never stamped counts as expired.
pub open spec fn baidu_token_expired(t: BaiduTokenData, now: int) -> bool {
    match t.stored_at {
        Some(s) => expired_by(s as int, t.expires_in as int, now),
        None => true,
    }
}

/// Qwen policy: a record that was never stamped counts as expired, but one
/// stamped without a lifetime never expires.
pub open spec fn qwen_token_expired(t: QwenTokenData, now: int) -> bool {
    match t.stored_at {
        Some(s) => match t.expires_in {
            Some(e) => expired_by(s as int, e as int, now),
            None => false,
        },
        None => true,
    }
}

/// An absent record counts as expired for either provider.
pub open spec fn baidu_record_expired(rec: Option<BaiduTokenData>, now: int) -> bool {
    match rec {
        Some(t) => baidu_token_expired(t, now),
        None => true,
    }
}

pub open spec fn qwen_record_expired(rec: Option<QwenTokenData>, now: int) -> bool {
    match rec {
        Some(t) => qwen_token_expired(t, now),
        None => true,
    }
}

/// The record as the store persists it: every field as given by the caller,
/// with the stamp overwritten by the time of the save.
pub open spec fn stamped_baidu(t: BaiduTokenData, now: i64) -> BaiduTokenData {
    BaiduTokenData { stored_at: Some(now), ..t }
}

pub open spec fn stamped_qwen(t: QwenTokenData, now: i64) -> QwenTokenData {
    QwenTokenData { stored_at: Some(now), ..t }
}

fn expired_by_exec(stored_at: i64, expires_in: i64, now: i64) -> (r: bool)
    ensures
        r == expired_by(stored_at as int, expires_in as int, now as int),
{
    let elapsed: i128 = (now as i128) - (stored_at as i128);
    let threshold: i128 = (expires_in as i128) - (EXPIRY_BUFFER_SECS as i128);
    elapsed >= threshold
}

/// The store's durable image: one slot per logical key.
pub struct TokenStore {
    pub baidu: Option<BaiduTokenData>,
    pub qwen: Option<QwenTokenData>,
    pub settings: Option<UserSettings>,
}

impl TokenStore {
    /// A fresh store holds no record under any key.
    pub fn new() -> (r: Self)
        ensures
            r.baidu is None,
            r.qwen is None,
            r.settings is None,
    {
        TokenStore { baidu: None, qwen: None, settings: None }
    }

    /// Saves the Baidu record, overwriting its stamp with the save time.
    pub fn save_baidu_token(&mut self, token: BaiduTokenData, now: i64)
        ensures
            final(self).baidu == Some(stamped_baidu(token, now)),
            final(self).qwen == old(self).qwen,
            final(self).settings == old(self).settings,
    {
        self.baidu = Some(BaiduTokenData { stored_at: Some(now), ..token });
    }

    /// Returns a copy of the stored Baidu record, or reports it absent.
    pub fn get_baidu_token(&self) -> (r: Option<BaiduTokenData>)
        ensures
            r == self.baidu,
    {
        match &self.baidu {
            Some(t) => Some(t.clone()),
            None => None,
        }
    }

    /// Removes the Baidu record; removing an absent record is not an error.
    pub fn delete_baidu_token(&mut self)
        ensures
            final(self).baidu is None,
            final(self).qwen == old(self).qwen,
            final(self).settings == old(self).settings,
    {
        self.baidu = None;
    }

    /// Expiry query for the Baidu key at the given time.
    pub fn is_baidu_token_expired(&self, now: i64) -> (r: bool)
        ensures
            r == baidu_record_expired(self.baidu, now as int),
    {
        match &self.baidu {
            Some(t) => match t.stored_at {
                Some(stored_at) => expired_by_exec(stored_at, t.expires_in, now),
                None => true,
            },
            None => true,
        }
    }

    /// Saves the Qwen record, overwriting its stamp with the save time.
    pub fn save_qwen_token(&mut self, token: QwenTokenData, now: i64)
        ensures
            final(self).qwen == Some(stamped_qwen(token, now)),
            final(self).baidu == old(self).baidu,
            final(self).settings == old(self).settings,
    {
        self.qwen = Some(QwenTokenData { stored_at: Some(now), ..token });
    }

    /// Returns a copy of the stored Qwen record, or reports it absent.
    pub fn get_qwen_token(&self) -> (r: Option<QwenTokenData>)
        ensures
            r == self.qwen,
    {
        match &self.qwen {
            Some(t) => Some(t.clone()),
            None => None,
        }
    }

    /// Removes the Qwen record; removing an absent record is not an error.
    pub fn delete_qwen_token(&mut self)
        ensures
            final(self).qwen is None,
            final(self).baidu == old(self).baidu,
            final(self).settings == old(self).settings,
    {
        self.qwen = None;
    }

    /// Expiry query for the Qwen key at the given time.
    pub fn is_qwen_token_expired(&self, now: i64) -> (r: bool)
        ensures
            r == qwen_record_expired(self.qwen, now as int),
    {
        match &self.qwen {
            Some(t) => match t.stored_at {
                Some(stored_at) => match t.expires_in {
                    Some(expires_in) => expired_by_exec(stored_at, expires_in, now),
                    None => false,
                },
                None => true,
            },
            None => true,
        }
    }

    /// Saves the settings record; settings carry no expiry stamp.
    pub fn save_user_settings(&mut self, settings: UserSettings)
        ensures
            final(self).settings == Some(settings),
            final(self).baidu == old(self).baidu,
            final(self).qwen == old(self).qwen,
    {
        self.settings = Some(settings);
    }

    /// Returns a copy of the stored settings, or reports them absent.
    pub fn get_user_settings(&self) -> (r: Option<UserSettings>)
        ensures
            match (r, self.settings) {
                (Some(a), Some(b)) => settings_equal(a, b),
                (None, None) => true,
                _ => false,
            },
    {
        match &self.settings {
            Some(s) => Some(s.clone()),
            None => None,
        }
    }

    /// Removes the settings record; removing an absent record is not an error.
    pub fn delete_user_settings(&mut self)
        ensures
            final(self).settings is None,
            final(self).baidu == old(self).baidu,
            final(self).qwen == old(self).qwen,
    {
        self.settings = None;
    }

    /// Removes every known key in one operation.
    pub fn clear_all(&mut self)
        ensures
            final(self).baidu is None,
            final(self).qwen is None,
            final(self).settings is None,
    {
        self.baidu = None;
        self.qwen = None;
        self.settings = None;
    }
}

/// Once a fixed Baidu record reads as expired, it still reads as expired at
/// every later time: expiry is monotonic in elapsed time between saves.
pub proof fn lemma_baidu_expiry_monotonic(rec: Option<BaiduTokenData>, now1: int, now2: int)
    requires
        baidu_record_expired(rec, now1),
        now1 <= now2,
    ensures
        baidu_record_expired(rec, now2),
{
}

/// Once a fixed Qwen record reads as expired, it still reads as expired at
/// every later time: expiry is monotonic in elapsed time between saves.
pub proof fn lemma_qwen_expiry_monotonic(rec: Option<QwenTokenData>, now1: int, now2: int)
    requires
        qwen_record_expired(rec, now1),
        now1 <= now2,
    ensures
        qwen_record_expired(rec, now2),
{
}

/// Round trip for the Baidu key: the record a get returns after a save — by
/// the contracts of `save_baidu_token` and `get_baidu_token`, exactly
/// `stamped_baidu(t, now)` — equals the record given to the save in every
/// field except the stamp, which holds the save time.
pub proof fn lemma_baidu_save_get_round_trip(t: BaiduTokenData, now: i64)
    ensures
        ({
            let got = stamped_baidu(t, now);
            got.access_token == t.access_token && got.refresh_token == t.refresh_token
                && got.expires_in == t.expires_in && got.scope == t.scope && got.client_id
                == t.client_id && got.client_secret == t.client_secret && got.redirect_uri
                == t.redirect_uri && got.stored_at == Some(now)
        }),
{
}

/// Round trip for the Qwen key, as for the Baidu key.
pub proof fn lemma_qwen_save_get_round_trip(t: QwenTokenData, now: i64)
    ensures
        ({
            let got = stamped_qwen(t, now);
            got.access_token == t.access_token && got.refresh_token == t.refresh_token
                && got.expires_in == t.expires_in && got.api_key == t.api_key && got.stored_at
                == Some(now)
        }),
{
}

/// A Qwen record stamped without a lifetime is never expired, at any time.
pub proof fn lemma_qwen_no_lifetime_never_expires(t: QwenTokenData, now: int)
    requires
        t.stored_at is Some,
        t.expires_in is None,
    ensures
        !qwen_token_expired(t, now),
{
}

} // verus!
