use vstd::prelude::*;

use crate::strutil::clone_string;

verus! {

// ---------------------------------------------------------------------------
// Data model
// ---------------------------------------------------------------------------

/// The status of the one tracked tunnel session: whether the accept loop is
/// live, the public URL once known, and the session's log.
pub struct TunnelStatus {
    pub is_active: bool,
    pub public_url: Option<String>,
    pub log: Vec<String>,
}

/// A tunnel status as a mathematical value.
pub struct StatusModel {
    pub is_active: bool,
    pub public_url: Option<Seq<char>>,
    pub log: Seq<Seq<char>>,
}

impl TunnelStatus {
    /// The status, viewed.
    pub open spec fn model(&self) -> StatusModel {
        StatusModel {
            is_active: self.is_active,
            public_url: match self.public_url {
                Some(u) => Some(u@),
                None => None,
            },
            log: self.log.deep_view(),
        }
    }
}

/// The session identifier that follows a given one.
pub open spec fn next_sid(s: u64) -> u64 {
    if s == u64::MAX {
        0
    } else {
        (s + 1) as u64
    }
}

/// The status after a session fails terminally with a log entry `msg`: the
/// entry is appended (or starts the log, where no status was tracked yet),
/// the session is inactive, and the public URL is cleared.
pub open spec fn failed_model(m: Option<StatusModel>, msg: Seq<char>) -> Option<StatusModel> {
    match m {
        Some(s) => Some(StatusModel { is_active: false, public_url: None, log: s.log.push(msg) }),
        None => Some(StatusModel { is_active: false, public_url: None, log: seq![msg] }),
    }
}

// ---------------------------------------------------------------------------
// The store
// ---------------------------------------------------------------------------

/// The process-wide snapshot of tunnel state.  One session is tracked at a
/// time; starting a session resets the store.  Every writer carries the
/// identifier of the session it belongs to, and a write tagged with a stale
/// identifier is ignored, so tasks left over from an earlier session cannot
/// touch the current one.
pub struct StatusStore {
    session: u64,
    info: Option<TunnelStatus>,
}

impl StatusStore {
    /// The identifier of the current session.
    pub closed spec fn sid(&self) -> u64 {
        self.session
    }

    /// The tracked status, viewed; `None` before the first start attempt.
    pub closed spec fn model(&self) -> Option<StatusModel> {
        match self.info {
            Some(ts) => Some(ts.model()),
            None => None,
        }
    }

    /// A store with nothing tracked yet.
    pub fn new() -> (r: StatusStore)
        ensures
            r.sid() == 0,
            r.model() is None,
    {
        StatusStore { session: 0, info: None }
    }

    /// Begin a new session: step the identifier and reset the status to an
    /// active one with no URL and an empty log.
    pub fn reset_for_new_session(&mut self) -> (sid: u64)
        ensures
            sid == final(self).sid(),
            final(self).sid() == next_sid(old(self).sid()),
            final(self).model() == Some(
                StatusModel {
                    is_active: true,
                    public_url: None,
                    log: Seq::<Seq<char>>::empty(),
                },
            ),
    {
        let sid: u64 = if self.session == u64::MAX {
            0
        } else {
            self.session + 1
        };
        self.session = sid;
        let log: Vec<String> = Vec::new();
        proof {
            assert(log.deep_view() =~= Seq::<Seq<char>>::empty());
        }
        self.info = Some(TunnelStatus { is_active: true, public_url: None, log });
        sid
    }

    /// Append a log entry on behalf of session `sid`; ignored when that
    /// session is no longer the current one or nothing is tracked.
    pub fn append_log(&mut self, sid: u64, msg: String)
        ensures
            final(self).sid() == old(self).sid(),
            sid == old(self).sid() ==> (old(self).model() matches Some(m) ==> final(self).model()
                == Some(StatusModel { log: m.log.push(msg@), ..m })),
            sid != old(self).sid() || old(self).model() is None ==> *final(self) == *old(self),
    {
        if sid == self.session {
            match &mut self.info {
                Some(info) => {
                    let ghost oldlog = info.log.deep_view();
                    info.log.push(msg);
                    proof {
                        assert(info.log.deep_view() =~= oldlog.push(msg@));
                    }
                },
                None => {},
            }
        }
    }

    /// Mark the session inactive with a final log entry, on behalf of `sid`;
    /// ignored when stale.  The public URL is kept.
    pub fn close_logged(&mut self, sid: u64, msg: String)
        ensures
            final(self).sid() == old(self).sid(),
            sid == old(self).sid() ==> (old(self).model() matches Some(m) ==> final(self).model()
                == Some(StatusModel { is_active: false, log: m.log.push(msg@), ..m })),
            sid != old(self).sid() || old(self).model() is None ==> *final(self) == *old(self),
    {
        if sid == self.session {
            match &mut self.info {
                Some(info) => {
                    let ghost oldlog = info.log.deep_view();
                    info.log.push(msg);
                    info.is_active = false;
                    proof {
                        assert(info.log.deep_view() =~= oldlog.push(msg@));
                    }
                },
                None => {},
            }
        }
    }

    /// Record a terminal session failure on behalf of `sid`; ignored when
    /// stale.  The entry is logged, the session goes inactive, and the
    /// public URL is cleared; where nothing was tracked yet, the failure
    /// starts the log.
    pub fn fail_session(&mut self, sid: u64, msg: String)
        ensures
            final(self).sid() == old(self).sid(),
            sid == old(self).sid() ==> final(self).model() == failed_model(
                old(self).model(),
                msg@,
            ),
            sid != old(self).sid() ==> *final(self) == *old(self),
    {
        if sid == self.session {
            match &mut self.info {
                Some(info) => {
                    let ghost oldlog = info.log.deep_view();
                    info.log.push(msg);
                    info.is_active = false;
                    info.public_url = None;
                    proof {
                        assert(info.log.deep_view() =~= oldlog.push(msg@));
                    }
                },
                None => {
                    let mut log: Vec<String> = Vec::new();
                    log.push(msg);
                    proof {
                        assert(log.deep_view() =~= seq![msg@]);
                    }
                    self.info = Some(
                        TunnelStatus { is_active: false, public_url: None, log },
                    );
                },
            }
        }
    }

    /// Record the public URL on behalf of `sid`; ignored when stale.
    pub fn record_url(&mut self, sid: u64, url: String)
        ensures
            final(self).sid() == old(self).sid(),
            sid == old(self).sid() ==> (old(self).model() matches Some(m) ==> final(self).model()
                == Some(StatusModel { public_url: Some(url@), ..m })),
            sid != old(self).sid() || old(self).model() is None ==> *final(self) == *old(self),
    {
        if sid == self.session {
            match &mut self.info {
                Some(info) => {
                    info.public_url = Some(url);
                },
                None => {},
            }
        }
    }

    /// A copy of the tracked status, as a status query returns it; the
    /// store itself is untouched.
    pub fn snapshot(&self) -> (r: Option<TunnelStatus>)
        ensures
            r matches Some(ts) ==> self.model() == Some(ts.model()),
            (r is Some) == (self.model() is Some),
    {
        match &self.info {
            Some(info) => {
                let mut log: Vec<String> = Vec::new();
                let mut i: usize = 0;
                while i < info.log.len()
                    invariant
                        0 <= i <= info.log.len(),
                        log.len() == i,
                        forall|j: int| 0 <= j < i ==> log.deep_view()[j] == info.log.deep_view()[j],
                    decreases info.log.len() - i,
                {
                    let entry = clone_string(&info.log[i]);
                    let ghost pre = log.deep_view();
                    log.push(entry);
                    proof {
                        assert forall|j: int| 0 <= j < i + 1 implies log.deep_view()[j]
                            == info.log.deep_view()[j] by {
                            if j < i {
                                assert(log.deep_view()[j] == pre[j]);
                            } else {
                                assert(log.deep_view()[j] == entry@);
                            }
                        }
                    }
                    i += 1;
                }
                proof {
                    assert(log.deep_view() =~= info.log.deep_view());
                }
                let url = match &info.public_url {
                    Some(u) => Some(clone_string(u)),
                    None => None,
                };
                Some(TunnelStatus { is_active: info.is_active, public_url: url, log })
            },
            None => None,
        }
    }
}

} // verus!
