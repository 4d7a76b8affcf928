use vstd::prelude::*;

verus! {

/// How the windows of a column are displayed.
#[derive(Clone, Copy, Debug, PartialEq, Eq, Structural)]
pub enum ColumnDisplay {
    /// Windows are tiled vertically.
    Normal,
    /// Windows are shown as tabs.
    Tabbed,
}

/// A new width for a window or column.
#[derive(Clone, Copy, Debug, PartialEq, Eq, Structural)]
pub enum WidthChange {
    /// An equal share of the available space among `columns` columns:
    /// `100 / columns` percent of it.
    EqualShare { columns: usize },
}

/// A compositor operation. It has effects on the compositor's state and
/// returns nothing beyond success or failure.
#[derive(Clone, Copy, Debug, PartialEq, Eq, Structural)]
#[allow(inconsistent_fields)]
pub enum Action {
    FocusWindow { id: u64 },
    ExpelWindowFromColumn,
    /// Focus a column by its 1-based index.
    FocusColumn { index: usize },
    SetColumnDisplay { display: ColumnDisplay },
    /// Set the width of the window `id`, or of the focused one.
    SetWindowWidth { id: Option<u64>, change: WidthChange },
    ConsumeWindowIntoColumn,
    FocusColumnFirst,
}

/// One request to the compositor.
#[derive(Clone, Copy, Debug, PartialEq, Eq, Structural)]
pub enum Request {
    Windows,
    Workspaces,
    Action(Action),
}

/// What the layout reads of a window.
#[derive(Clone, Copy, Debug, PartialEq, Eq, Structural)]
pub struct WindowInfo {
    pub id: u64,
    /// The workspace that the window is on, if any.
    pub workspace_id: Option<u64>,
}

/// What the layout reads of a workspace.
#[derive(Clone, Copy, Debug, PartialEq, Eq, Structural)]
pub struct WorkspaceInfo {
    pub id: u64,
    pub is_focused: bool,
}

/// The payload of a successful reply.
#[derive(Clone, Debug)]
pub enum Response {
    /// The acknowledgement of an action.
    Handled,
    Windows(Vec<WindowInfo>),
    Workspaces(Vec<WorkspaceInfo>),
    /// Any other payload, which this client never asks for.
    Other,
}

/// The compositor's answer to one request: a payload, or its failure message.
pub type Reply = Result<Response, String>;

/// A reply to a query that cannot serve as its answer.
#[derive(Clone, Debug)]
pub enum QueryError {
    /// The compositor reported a failure, with its message.
    Failed(String),
    /// The reply carries a payload of another kind than the one asked for.
    UnexpectedReply,
}

/// The window list of a reply to a window query; any other reply is a
/// semantic error.
pub fn windows_from_reply(reply: Reply) -> (r: Result<Vec<WindowInfo>, QueryError>)
    ensures
        match reply {
            Ok(Response::Windows(ws)) => r matches Ok(v) && v@ == ws@,
            Ok(_) => r matches Err(QueryError::UnexpectedReply),
            Err(msg) => r matches Err(QueryError::Failed(m)) && m@ == msg@,
        },
{
    match reply {
        Ok(Response::Windows(windows)) => Ok(windows),
        Ok(_) => Err(QueryError::UnexpectedReply),
        Err(msg) => Err(QueryError::Failed(msg)),
    }
}

/// The workspace list of a reply to a workspace query; any other reply is a
/// semantic error.
pub fn workspaces_from_reply(reply: Reply) -> (r: Result<Vec<WorkspaceInfo>, QueryError>)
    ensures
        match reply {
            Ok(Response::Workspaces(ws)) => r matches Ok(v) && v@ == ws@,
            Ok(_) => r matches Err(QueryError::UnexpectedReply),
            Err(msg) => r matches Err(QueryError::Failed(m)) && m@ == msg@,
        },
{
    match reply {
        Ok(Response::Workspaces(workspaces)) => Ok(workspaces),
        Ok(_) => Err(QueryError::UnexpectedReply),
        Err(msg) => Err(QueryError::Failed(msg)),
    }
}

/// The line terminator of the wire format.
pub const NEWLINE: u8 = 10;

/// The line that carries `record`: the record and a line terminator.
pub open spec fn framed(record: Seq<u8>) -> Seq<u8> {
    record.push(NEWLINE)
}

/// The record that a line read from the stream carries: the line without its
/// terminator. A line without a terminator (the stream closed first), or with
/// one before its end, carries none.
pub open spec fn unframed(line: Seq<u8>) -> Option<Seq<u8>> {
    if line.len() >= 1 && line.last() == NEWLINE && !line.drop_last().contains(NEWLINE) {
        Some(line.drop_last())
    } else {
        None
    }
}

/// Whether `bytes` holds a line terminator, by a scan.
fn has_newline(bytes: &Vec<u8>, len: usize) -> (r: bool)
    requires
        len <= bytes@.len(),
    ensures
        r == bytes@.take(len as int).contains(NEWLINE),
{
    let mut i: usize = 0;
    while i < len
        invariant
            i <= len <= bytes@.len(),
            !bytes@.take(i as int).contains(NEWLINE),
        decreases len - i,
    {
        if bytes[i] == NEWLINE {
            assert(bytes@.take(len as int)[i as int] == NEWLINE);
            return true;
        }
        assert(bytes@.take(i as int + 1) =~= bytes@.take(i as int).push(bytes@[i as int]));
        i = i + 1;
    }
    assert(bytes@.take(len as int) =~= bytes@.take(i as int));
    false
}

/// The line that carries an encoded request, ready to be written: `None` when
/// the record holds a line terminator itself and so cannot stand on one line.
pub fn frame_record(record: Vec<u8>) -> (r: Option<Vec<u8>>)
    ensures
        record@.contains(NEWLINE) ==> r is None,
        !record@.contains(NEWLINE) ==> (r matches Some(line) && line@ == framed(record@)),
{
    let len = record.len();
    if has_newline(&record, len) {
        proof {
            assert(record@.take(len as int) =~= record@);
        }
        None
    } else {
        proof {
            assert(record@.take(len as int) =~= record@);
        }
        let mut line = record;
        line.push(NEWLINE);
        Some(line)
    }
}

/// The record carried by one line read from the stream, terminator included
/// when there was one: `None` when the line is not exactly one terminated
/// record.
pub fn unframe_line(line: Vec<u8>) -> (r: Option<Vec<u8>>)
    ensures
        match unframed(line@) {
            Some(record) => r matches Some(v) && v@ == record,
            None => r is None,
        },
{
    let len = line.len();
    if len == 0 || line[len - 1] != NEWLINE {
        return None;
    }
    if has_newline(&line, len - 1) {
        proof {
            assert(line@.take(len - 1) =~= line@.drop_last());
        }
        return None;
    }
    proof {
        assert(line@.take(len - 1) =~= line@.drop_last());
    }
    let mut record = line;
    record.pop();
    Some(record)
}

/// Framing is symmetric: a record without a line terminator, once framed,
/// is read back as the same record.
pub proof fn lemma_frame_round_trip(record: Seq<u8>)
    requires
        !record.contains(NEWLINE),
    ensures
        unframed(framed(record)) == Some(record),
{
    assert(framed(record).drop_last() =~= record);
}

} // verus!
