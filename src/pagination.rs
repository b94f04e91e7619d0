//! Cursor pagination of listings.
use vstd::prelude::*;
use vstd::string::StringExecFns;
use crate::ids::{hex_number, is_object_id_text, parse_object_id, ObjectId};

verus! {

pub const DEFAULT_LIMIT: i64 = 20;

pub const MAX_LIMIT: i64 = 100;

#[derive(Debug)]
pub struct PaginationParams {
    pub cursor: Option<String>,
    pub limit: Option<i64>,
}

impl PaginationParams {
    /// The page size asked for, held between one and the maximum; the default
    /// when none was asked for.
    pub open spec fn spec_limit(&self) -> i64 {
        match self.limit {
            None => DEFAULT_LIMIT,
            Some(l) => if l < 1 {
                1
            } else if l > MAX_LIMIT {
                MAX_LIMIT
            } else {
                l
            },
        }
    }

    pub fn effective_limit(&self) -> (r: i64)
        ensures
            r == self.spec_limit(),
            1 <= r <= MAX_LIMIT,
    {
        match self.limit {
            None => DEFAULT_LIMIT,
            Some(l) => if l < 1 {
                1
            } else if l > MAX_LIMIT {
                MAX_LIMIT
            } else {
                l
            },
        }
    }

    /// The identifier the cursor names; an error when it names none.
    pub fn cursor_oid(&self) -> (r: Result<Option<ObjectId>, String>)
        ensures
            self.cursor is None ==> r == Ok::<Option<ObjectId>, String>(None),
            self.cursor matches Some(c) ==> (r is Ok <==> is_object_id_text(c@)),
            r matches Ok(Some(id)) ==> (self.cursor matches Some(c) && id.high == hex_number(
                c@.subrange(0, 8),
            ) && id.low == hex_number(c@.subrange(8, 24))),
            r matches Err(e) ==> e@ == "Invalid cursor"@,
    {
        match &self.cursor {
            None => Ok(None),
            Some(c) => match parse_object_id(c.as_str()) {
                Some(id) => Ok(Some(id)),
                None => Err(String::from_str("Invalid cursor")),
            },
        }
    }
}

/// One page of a listing, and where the next one starts.
#[derive(Debug)]
pub struct PaginatedResponse<T> {
    pub data: Vec<T>,
    pub next_cursor: Option<String>,
    pub has_more: bool,
}

/// Whether `n` fetched items mean a further page exists: one more than the
/// page size is fetched to find out.
pub open spec fn more_than(n: int, limit: i64) -> bool {
    n > limit
}

fn exceeds(n: usize, limit: i64) -> (r: bool)
    ensures
        r == more_than(n as int, limit),
{
    if limit < 0 {
        true
    } else {
        n as u64 > limit as u64
    }
}

impl<T> PaginatedResponse<T> {
    /// The page of `data` (fetched with one item beyond `limit`): the extra
    /// item, when present, is dropped and marks that more exists.
    pub fn new(data: Vec<T>, limit: i64) -> (r: Self)
        ensures
            r.has_more == more_than(data@.len() as int, limit),
            r.data@ == if r.has_more && data@.len() > 0 {
                data@.drop_last()
            } else {
                data@
            },
            r.next_cursor is None,
    {
        let has_more = exceeds(data.len(), limit);
        let mut data = data;
        if has_more {
            data.pop();
        }
        PaginatedResponse { data, next_cursor: None, has_more }
    }

    /// As `new`, with the cursor of the page's last item, made by `cursor_fn`,
    /// when more exists.
    pub fn with_cursor<F: Fn(&T) -> String>(data: Vec<T>, limit: i64, cursor_fn: F) -> (r: Self)
        requires
            forall|t: &T| cursor_fn.requires((t,)),
        ensures
            r.has_more == more_than(data@.len() as int, limit),
            r.data@ == if r.has_more && data@.len() > 0 {
                data@.drop_last()
            } else {
                data@
            },
            !r.has_more ==> r.next_cursor is None,
            r.has_more && r.data@.len() > 0 ==> (r.next_cursor matches Some(c) && cursor_fn.ensures(
                (&r.data@.last(),),
                c,
            )),
            r.has_more && r.data@.len() == 0 ==> r.next_cursor is None,
    {
        let has_more = exceeds(data.len(), limit);
        let mut data = data;
        if has_more {
            data.pop();
        }
        let next_cursor = if has_more && data.len() > 0 {
            let last = data.len() - 1;
            Some(cursor_fn(&data[last]))
        } else {
            None
        };
        PaginatedResponse { data, next_cursor, has_more }
    }
}

} // verus!
