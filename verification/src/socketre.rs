//! The socket subsystem's persisted records: per-unit configuration and
//! runtime state, and the singleton in-flight marker, each in its own named
//! table.

use crate::history::{updated_at, ReliHistory};
use crate::records::{
    PortType, Record, RecordView, SectionSocket, SocketCommand, SocketReConf, SocketReFrame,
    SocketReMng, SocketResult, SocketState,
};
use crate::records::{clone_ports, clone_opt_string};
use crate::reli::Reliability;
use crate::store::StoreModel;
use vstd::prelude::*;

verus! {

/// The name of the socket configuration table.
pub open spec fn sock_conf_table() -> Seq<char> {
    "sockconf"@
}

/// The name of the socket runtime table.
pub open spec fn sock_mng_table() -> Seq<char> {
    "sockmng"@
}

/// The name of the socket manager's singleton marker table.
pub open spec fn sock_frame_table() -> Seq<char> {
    "sockm-frame"@
}

fn conf_tname() -> (r: String)
    ensures
        r@ == sock_conf_table(),
{
    "sockconf".to_owned()
}

fn mng_tname() -> (r: String)
    ensures
        r@ == sock_mng_table(),
{
    "sockmng".to_owned()
}

fn frame_tname() -> (r: String)
    ensures
        r@ == sock_frame_table(),
{
    "sockm-frame".to_owned()
}

fn frame_key() -> (r: String)
    ensures
        r@ == "0"@,
{
    "0".to_owned()
}

/// The configuration record a table holds for a unit, if any.
pub open spec fn sock_conf_of(m: StoreModel, id: Seq<char>) -> Option<
    crate::records::SocketReConfView,
> {
    match m.read_of(id) {
        Some(RecordView::SockConf(c)) => Some(c),
        _ => None,
    }
}

/// The runtime record a table holds for a unit, if any.
pub open spec fn sock_mng_of(m: StoreModel, id: Seq<char>) -> Option<
    crate::records::SocketReMngView,
> {
    match m.read_of(id) {
        Some(RecordView::SockMng(r)) => Some(r),
        _ => None,
    }
}

/// The marker the socket manager's singleton table holds, if any.
pub open spec fn sock_frame_of(m: StoreModel) -> Option<SocketReFrame> {
    match m.read_of("0"@) {
        Some(RecordView::SockFrame(f)) => Some(f),
        _ => None,
    }
}

/// The facade over the socket tables.
#[derive(Debug)]
pub struct SocketRe {
}

impl SocketRe {
    /// All three socket tables are registered in the history.
    pub open spec fn registered(h: ReliHistory) -> bool {
        h.has_table(sock_conf_table()) && h.has_table(sock_mng_table()) && h.has_table(
            sock_frame_table(),
        )
    }

    /// Register the socket tables with the coordinator, once at start-up.
    pub fn new(reli: &mut Reliability) -> (r: SocketRe)
        requires
            old(reli).history.wf(),
        ensures
            final(reli).history.wf(),
            SocketRe::registered(final(reli).history),
            final(reli).last_unit == old(reli).last_unit,
            final(reli).last_frame == old(reli).last_frame,
            forall|n: Seq<char>|
                old(reli).history.has_table(n) ==> final(reli).history.has_table(n),
    {
        let rentry = SocketRe {  };
        rentry.register(reli);
        rentry
    }

    /// Register the three tables.
    fn register(&self, reli: &mut Reliability)
        requires
            old(reli).history.wf(),
        ensures
            final(reli).history.wf(),
            SocketRe::registered(final(reli).history),
            final(reli).last_unit == old(reli).last_unit,
            final(reli).last_frame == old(reli).last_frame,
            forall|n: Seq<char>|
                old(reli).history.has_table(n) ==> final(reli).history.has_table(n),
    {
        reli.history_db_register(&conf_tname());
        reli.history_db_register(&mng_tname());
        reli.history_db_register(&frame_tname());
    }

    /// Write a unit's configuration record.
    pub fn conf_insert(
        &self,
        h: &mut ReliHistory,
        unit_id: &str,
        socket: &SectionSocket,
        service: Option<String>,
    )
        requires
            old(h).wf(),
        ensures
            final(h).wf(),
            old(h).has_table(sock_conf_table()) ==> updated_at(
                *old(h),
                *final(h),
                sock_conf_table(),
                old(h).table_at(sock_conf_table()).do_insert(
                    unit_id@,
                    RecordView::SockConf(
                        crate::records::SocketReConfView {
                            socket: socket@,
                            service: service.deep_view(),
                        },
                    ),
                ),
            ),
            !old(h).has_table(sock_conf_table()) ==> *final(h) == *old(h),
    {
        let conf = SocketReConf::new(socket, service);
        h.table_insert(&conf_tname(), &unit_id.to_owned(), Record::SockConf(conf));
    }

    /// Remove a unit's configuration record.
    pub fn conf_remove(&self, h: &mut ReliHistory, unit_id: &str)
        requires
            old(h).wf(),
        ensures
            final(h).wf(),
            old(h).has_table(sock_conf_table()) ==> updated_at(
                *old(h),
                *final(h),
                sock_conf_table(),
                old(h).table_at(sock_conf_table()).do_remove(unit_id@),
            ),
            !old(h).has_table(sock_conf_table()) ==> *final(h) == *old(h),
    {
        h.table_remove(&conf_tname(), &unit_id.to_owned());
    }

    /// Read a unit's configuration record.
    pub fn conf_get(&self, h: &ReliHistory, unit_id: &str) -> (r: Option<
        (SectionSocket, Option<String>),
    >)
        requires
            h.wf(),
        ensures
            h.has_table(sock_conf_table()) ==> (match sock_conf_of(
                h.table_at(sock_conf_table()),
                unit_id@,
            ) {
                Some(c) => r matches Some(p) && p.0@ == c.socket && p.1.deep_view() == c.service,
                None => r is None,
            }),
            !h.has_table(sock_conf_table()) ==> r is None,
    {
        match h.table_get(&conf_tname(), &unit_id.to_owned()) {
            Some(Record::SockConf(c)) => Some((c.socket.clone(), clone_opt_string(&c.service))),
            _ => None,
        }
    }

    /// Write a unit's runtime record from its pieces.
    pub fn mng_insert(
        &self,
        h: &mut ReliHistory,
        unit_id: &str,
        state: SocketState,
        result: SocketResult,
        control_pid: Option<i32>,
        control_cmd_type: Option<SocketCommand>,
        control_cmd_len: usize,
        refused: i32,
        ports: Vec<(PortType, String, i32)>,
    )
        requires
            old(h).wf(),
        ensures
            final(h).wf(),
            old(h).has_table(sock_mng_table()) ==> updated_at(
                *old(h),
                *final(h),
                sock_mng_table(),
                old(h).table_at(sock_mng_table()).do_insert(
                    unit_id@,
                    RecordView::SockMng(
                        crate::records::SocketReMngView {
                            state,
                            result,
                            control_pid,
                            control_cmd_type,
                            control_cmd_len,
                            refused,
                            ports: ports.deep_view(),
                        },
                    ),
                ),
            ),
            !old(h).has_table(sock_mng_table()) ==> *final(h) == *old(h),
    {
        let mng = SocketReMng::new(
            state,
            result,
            control_pid,
            control_cmd_type,
            control_cmd_len,
            refused,
            ports,
        );
        h.table_insert(&mng_tname(), &unit_id.to_owned(), Record::SockMng(mng));
    }

    /// Remove a unit's runtime record.
    pub fn mng_remove(&self, h: &mut ReliHistory, unit_id: &str)
        requires
            old(h).wf(),
        ensures
            final(h).wf(),
            old(h).has_table(sock_mng_table()) ==> updated_at(
                *old(h),
                *final(h),
                sock_mng_table(),
                old(h).table_at(sock_mng_table()).do_remove(unit_id@),
            ),
            !old(h).has_table(sock_mng_table()) ==> *final(h) == *old(h),
    {
        h.table_remove(&mng_tname(), &unit_id.to_owned());
    }

    /// Read a unit's runtime record, back into its pieces.
    pub fn mng_get(&self, h: &ReliHistory, unit_id: &str) -> (r: Option<
        (
            SocketState,
            SocketResult,
            Option<i32>,
            Option<SocketCommand>,
            usize,
            i32,
            Vec<(PortType, String, i32)>,
        ),
    >)
        requires
            h.wf(),
        ensures
            h.has_table(sock_mng_table()) ==> (match sock_mng_of(
                h.table_at(sock_mng_table()),
                unit_id@,
            ) {
                Some(m) => r matches Some(t) && t.0 == m.state && t.1 == m.result && t.2
                    == m.control_pid && t.3 == m.control_cmd_type && t.4 == m.control_cmd_len
                    && t.5 == m.refused && t.6.deep_view() == m.ports,
                None => r is None,
            }),
            !h.has_table(sock_mng_table()) ==> r is None,
    {
        match h.table_get(&mng_tname(), &unit_id.to_owned()) {
            Some(Record::SockMng(m)) => Some(
                (
                    m.state,
                    m.result,
                    m.control_pid,
                    m.control_cmd_type,
                    m.control_cmd_len,
                    m.refused,
                    clone_ports(&m.ports),
                ),
            ),
            _ => None,
        }
    }

    /// Set the in-flight marker: a non-atomic socket action began; durable
    /// at once, so an abrupt stop leaves it to be found at start-up.
    pub fn set_last_frame(&self, h: &mut ReliHistory, frame: SocketReFrame)
        requires
            old(h).wf(),
        ensures
            final(h).wf(),
            old(h).has_table(sock_frame_table()) ==> updated_at(
                *old(h),
                *final(h),
                sock_frame_table(),
                old(h).table_at(sock_frame_table()).do_insert(
                    "0"@,
                    RecordView::SockFrame(frame),
                ).do_export(),
            ),
            !old(h).has_table(sock_frame_table()) ==> *final(h) == *old(h),
    {
        h.table_insert(&frame_tname(), &frame_key(), Record::SockFrame(frame));
        h.table_export(&frame_tname());
    }

    /// Clear the in-flight marker: the action completed; durable at once,
    /// the other half of the transactional bracket.
    pub fn clear_last_frame(&self, h: &mut ReliHistory)
        requires
            old(h).wf(),
        ensures
            final(h).wf(),
            old(h).has_table(sock_frame_table()) ==> updated_at(
                *old(h),
                *final(h),
                sock_frame_table(),
                old(h).table_at(sock_frame_table()).do_remove("0"@).do_export(),
            ),
            !old(h).has_table(sock_frame_table()) ==> *final(h) == *old(h),
    {
        h.table_remove(&frame_tname(), &frame_key());
        h.table_export(&frame_tname());
    }

    /// The in-flight marker, if the action it names did not complete.
    pub fn last_frame(&self, h: &ReliHistory) -> (r: Option<SocketReFrame>)
        requires
            h.wf(),
        ensures
            r == (if h.has_table(sock_frame_table()) {
                sock_frame_of(h.table_at(sock_frame_table()))
            } else {
                None
            }),
    {
        match h.table_get(&frame_tname(), &frame_key()) {
            Some(Record::SockFrame(f)) => Some(*f),
            _ => None,
        }
    }
}

} // verus!
