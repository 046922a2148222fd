//! Start-up prewarm status: whether the IID prewarm is still running and the
//! message of its last failure, so that the UI can show "prewarming / done".

use vstd::prelude::*;

use crate::text::{
    contains_seq, lemma_contains_within, lemma_trim_ends, lemma_trim_unchanged, occurs_at, opt_view,
    str_contains, string_push_str, trim, trim_seq,
};

verus! {

/// What the UI adds to an IID registration failure when the error does not
/// already say which domain to allow.
pub const IID_BLOCK_HINT: &'static str = "Для регистрации IID нужен доступ к https://log.snssdk.com/service/2/device_register/. Fanqie использует этот домен для регистрации устройства и рекламы, поэтому его часто блокируют корпоративные/кампусные сети, DNS-фильтры, правила прокси или блокировщики вроде AdGuard/uBlock. Добавьте log.snssdk.com в белый список или временно отключите блокировку и повторите попытку.";

/// The start of every IID registration failure message.
pub const IID_FAILURE_PREFIX: &'static str = "Ошибка регистрации IID: ";

/// The domain whose mention, together with [`ADGUARD`], means the error
/// already explains itself.
pub const SNSSDK_DOMAIN: &'static str = "log.snssdk.com";

/// See [`SNSSDK_DOMAIN`].
pub const ADGUARD: &'static str = "AdGuard";

/// The message shown for the IID registration error `err`.
pub open spec fn iid_failure_message(err: Seq<char>) -> Seq<char> {
    let e = trim_seq(err);
    if contains_seq(e, SNSSDK_DOMAIN@) && contains_seq(e, ADGUARD@) {
        IID_FAILURE_PREFIX@ + e
    } else {
        IID_FAILURE_PREFIX@ + e + "\n\n"@ + IID_BLOCK_HINT@
    }
}

/// The prewarm status: whether a prewarm runs, and the last failure message.
pub struct PrewarmState {
    prewarming: bool,
    error: Option<String>,
}

/// The prewarm status as plain values.
pub struct PrewarmView {
    pub prewarming: bool,
    pub error: Option<Seq<char>>,
}

impl View for PrewarmState {
    type V = PrewarmView;

    closed spec fn view(&self) -> PrewarmView {
        PrewarmView { prewarming: self.prewarming, error: opt_view(self.error) }
    }
}

/// The status after a prewarm starts: running, with no failure.
pub open spec fn after_start(s: PrewarmView) -> PrewarmView {
    PrewarmView { prewarming: true, error: None }
}

/// The status after a prewarm finishes: not running, the failure kept.
pub open spec fn after_done(s: PrewarmView) -> PrewarmView {
    PrewarmView { prewarming: false, error: s.error }
}

/// The status after a prewarm fails with `err`.
pub open spec fn after_failed(s: PrewarmView, err: Seq<char>) -> PrewarmView {
    PrewarmView { prewarming: false, error: Some(iid_failure_message(err)) }
}

impl PrewarmState {
    /// The status before any prewarm: not running, no failure.
    pub fn new() -> (r: PrewarmState)
        ensures
            r@ == (PrewarmView { prewarming: false, error: None }),
    {
        PrewarmState { prewarming: false, error: None }
    }
}

/// Records that a prewarm has started; an earlier failure is forgotten.
pub fn mark_prewarm_start(state: &mut PrewarmState)
    ensures
        final(state)@ == after_start(old(state)@),
{
    set_prewarm_error(state, None);
    state.prewarming = true;
}

/// Records that the prewarm has finished.
pub fn mark_prewarm_done(state: &mut PrewarmState)
    ensures
        final(state)@ == after_done(old(state)@),
{
    state.prewarming = false;
}

/// Records that the prewarm failed with `err`.
pub fn mark_prewarm_failed(state: &mut PrewarmState, err: &str)
    ensures
        final(state)@ == after_failed(old(state)@, err@),
{
    let msg = format_iid_register_failure(err);
    set_prewarm_error(state, Some(msg));
    state.prewarming = false;
}

/// Whether a prewarm is running.
pub fn is_prewarm_in_progress(state: &PrewarmState) -> (r: bool)
    ensures
        r == state@.prewarming,
{
    state.prewarming
}

/// The message of the last prewarm failure, if any.
pub fn prewarm_error(state: &PrewarmState) -> (r: Option<String>)
    ensures
        opt_view(r) == state@.error,
{
    match &state.error {
        Some(e) => Some(e.clone()),
        None => None,
    }
}

/// The message shown for the IID registration error `err`: the trimmed error
/// after a fixed prefix, then, unless the error already names both the
/// registration domain and AdGuard, a hint on how to unblock it.
pub fn format_iid_register_failure(err: &str) -> (r: String)
    ensures
        r@ == iid_failure_message(err@),
{
    let e = trim(err);
    let mut out = IID_FAILURE_PREFIX.to_string();
    string_push_str(&mut out, e.as_str());
    if str_contains(e.as_str(), SNSSDK_DOMAIN) && str_contains(e.as_str(), ADGUARD) {
        return out;
    }
    string_push_str(&mut out, "\n\n");
    string_push_str(&mut out, IID_BLOCK_HINT);
    out
}

fn set_prewarm_error(state: &mut PrewarmState, err: Option<String>)
    ensures
        final(state)@ == (PrewarmView { prewarming: old(state)@.prewarming, error: opt_view(err) }),
{
    state.error = err;
}

/// Starting a prewarm always shows it as running with no failure, whatever
/// happened before (a new start forgets an old failure).
pub proof fn law_start_resets(s: PrewarmView, err: Seq<char>)
    ensures
        after_start(s).prewarming,
        after_start(s).error is None,
        after_start(after_failed(s, err)) == after_start(s),
{
}

/// A prewarm that failed is no longer running, and its message stays readable
/// after the prewarm is later marked done.
pub proof fn law_failure_survives_done(s: PrewarmView, err: Seq<char>)
    ensures
        !after_failed(s, err).prewarming,
        after_done(after_failed(s, err)).error == Some(iid_failure_message(err)),
        !after_done(after_failed(s, err)).prewarming,
{
}

/// A finished prewarm changes nothing but the running flag.
pub proof fn law_done_keeps_error(s: PrewarmView)
    ensures
        after_done(s).error == s.error,
        !after_done(s).prewarming,
        after_done(after_done(s)) == after_done(s),
{
}

/// Every failure message starts with the fixed prefix and the trimmed error;
/// the hint follows exactly when the error does not name both the domain and
/// AdGuard.
pub proof fn law_failure_message_shape(err: Seq<char>)
    ensures
        iid_failure_message(err).take((IID_FAILURE_PREFIX@.len() + trim_seq(err).len()) as int)
            == IID_FAILURE_PREFIX@ + trim_seq(err),
        iid_failure_message(err).len() == IID_FAILURE_PREFIX@.len() + trim_seq(err).len()
            <==> (contains_seq(trim_seq(err), SNSSDK_DOMAIN@) && contains_seq(
            trim_seq(err),
            ADGUARD@,
        )),
{
    let e = trim_seq(err);
    let m = iid_failure_message(err);
    let base = IID_FAILURE_PREFIX@ + e;
    if !(contains_seq(e, SNSSDK_DOMAIN@) && contains_seq(e, ADGUARD@)) {
        assert(m.take(base.len() as int) =~= base);
        reveal_strlit("\n\n");
    } else {
        assert(m.take(base.len() as int) =~= base);
    }
}


/// Formatting a failure message again only puts the prefix in front of it:
/// the hint names both the domain and AdGuard, so it is never added twice.
pub proof fn law_failure_message_once(err: Seq<char>)
    ensures
        iid_failure_message(iid_failure_message(err)) == IID_FAILURE_PREFIX@ + iid_failure_message(err),
{
    let e = trim_seq(err);
    let m = iid_failure_message(err);
    let p = IID_FAILURE_PREFIX@;
    let h = IID_BLOCK_HINT@;
    let nl = "\n\n"@;
    reveal_strlit("Ошибка регистрации IID: ");
    reveal_strlit("Для регистрации IID нужен доступ к https://log.snssdk.com/service/2/device_register/. Fanqie использует этот домен для регистрации устройства и рекламы, поэтому его часто блокируют корпоративные/кампусные сети, DNS-фильтры, правила прокси или блокировщики вроде AdGuard/uBlock. Добавьте log.snssdk.com в белый список или временно отключите блокировку и повторите попытку.");
    reveal_strlit("log.snssdk.com");
    reveal_strlit("AdGuard");
    reveal_strlit("\n\n");
    lemma_trim_ends(err);
    if contains_seq(e, SNSSDK_DOMAIN@) && contains_seq(e, ADGUARD@) {
        assert(m == p + e);
        let i = choose|i: int| occurs_at(e, SNSSDK_DOMAIN@, i);
        assert(e.len() > 0);
        assert(m.last() == e.last());
        assert(m[0] == p[0]);
        lemma_contains_within(p, e, Seq::<char>::empty(), SNSSDK_DOMAIN@);
        lemma_contains_within(p, e, Seq::<char>::empty(), ADGUARD@);
        assert(p + e + Seq::<char>::empty() =~= m);
    } else {
        assert(m == p + e + nl + h);
        assert(h.subrange(43, 57) =~= SNSSDK_DOMAIN@);
        assert(occurs_at(h, SNSSDK_DOMAIN@, 43));
        assert(h.subrange(262, 269) =~= ADGUARD@);
        assert(occurs_at(h, ADGUARD@, 262));
        lemma_contains_within(p + e + nl, h, Seq::<char>::empty(), SNSSDK_DOMAIN@);
        lemma_contains_within(p + e + nl, h, Seq::<char>::empty(), ADGUARD@);
        assert(p + e + nl + h + Seq::<char>::empty() =~= m);
        assert(m.last() == h.last());
        assert(m[0] == p[0]);
    }
    lemma_trim_unchanged(m);
}

} // verus!
