//! Decisions of the guestbook administration endpoints.
//!
//! Each endpoint validates its input and the row the caller looked up,
//! and answers with the fixed messages of the panel; the store
//! operations themselves run in the surrounding binary.

use vstd::prelude::*;
use crate::entity::GuestbookRecord;
use crate::envelope::{error_envelope, success_envelope, Envelope};
use crate::strutil::{parse_ids, spec_ids};

verus! {

/// The reply payload of the list endpoint.
pub struct ListData {
    pub list: Vec<GuestbookRecord>,
    pub count: u64,
}

/// The query of the list endpoint: a page window and optional filters.
#[derive(Clone)]
pub struct ListQuery {
    pub page: u64,
    pub limit: u64,
    pub name: Option<String>,
    pub message: Option<String>,
    pub phone: Option<String>,
    pub email: Option<String>,
    pub qq: Option<String>,
    pub weixin: Option<String>,
    pub status: Option<i32>,
}

/// The query of the detail endpoint.
#[derive(Clone)]
pub struct DetailQuery {
    pub id: u32,
}

/// The form of the delete endpoint.
#[derive(Clone)]
pub struct DeleteForm {
    pub id: u32,
}

/// The form of the batch-delete endpoint: identifiers joined by commas.
#[derive(Clone)]
pub struct BatchDeleteForm {
    pub ids: String,
}

/// The query of the status-update endpoint.
#[derive(Clone)]
pub struct UpdateStatusQuery {
    pub id: u32,
}

/// The form of the status-update endpoint.
#[derive(Clone)]
pub struct UpdateStatusForm {
    pub status: i32,
}

/// Whether a lookup produced a real guestbook row.
pub open spec fn spec_guest_found(g: Option<GuestbookRecord>) -> bool {
    match g {
        Some(x) => x.id > 0,
        None => false,
    }
}

/// The lookup result as the specification speaks of it.
pub open spec fn spec_opt_guest(g: Option<&GuestbookRecord>) -> Option<GuestbookRecord> {
    match g {
        Some(x) => Some(*x),
        None => None,
    }
}

/// Wraps a fetched page for the list reply, under its fixed message.
pub fn list(rows: Vec<GuestbookRecord>, count: u64) -> (r: (ListData, Envelope))
    ensures
        r.0.list == rows,
        r.0.count == count,
        r.1.success,
        r.1.message@ == "获取成功"@,
{
    (ListData { list: rows, count }, success_envelope("获取成功"))
}

/// Judges a detail request: the identifier must be present and the row
/// must exist; the failure messages are the page's fixed ones.
pub fn detail(query: &DetailQuery, found: Option<&GuestbookRecord>) -> (r: Result<(), String>)
    ensures
        query.id == 0 ==> (r matches Err(m) && m@ == "ID不能为空"@),
        query.id != 0 && !spec_guest_found(spec_opt_guest(found)) ==> (r matches Err(m) && m@
            == "留言不存在"@),
        query.id != 0 && spec_guest_found(spec_opt_guest(found)) ==> r is Ok,
{
    if query.id == 0 {
        return Err(String::from_str("ID不能为空"));
    }
    let ok = match found {
        Some(g) => g.id > 0,
        None => false,
    };
    if !ok {
        return Err(String::from_str("留言不存在"));
    }
    Ok(())
}

/// Judges a delete request before the store runs: the identifier must
/// be present and the row must exist.
pub fn delete(form: &DeleteForm, found: Option<&GuestbookRecord>) -> (r: Result<(), Envelope>)
    ensures
        form.id == 0 ==> (r matches Err(e) && !e.success && e.message@ == "ID不能为空"@),
        form.id != 0 && !spec_guest_found(spec_opt_guest(found)) ==> (r matches Err(e) && !e.success
            && e.message@ == "要删除的留言不存在"@),
        form.id != 0 && spec_guest_found(spec_opt_guest(found)) ==> r is Ok,
{
    if form.id == 0 {
        return Err(error_envelope("ID不能为空"));
    }
    let ok = match found {
        Some(g) => g.id > 0,
        None => false,
    };
    if !ok {
        return Err(error_envelope("要删除的留言不存在"));
    }
    Ok(())
}

/// The reply once the store has deleted, or failed to delete, a row.
pub fn delete_result(ok: bool) -> (r: Envelope)
    ensures
        r.success == ok,
        ok ==> r.message@ == "删除成功"@,
        !ok ==> r.message@ == "删除失败"@,
{
    if ok {
        success_envelope("删除成功")
    } else {
        error_envelope("删除失败")
    }
}

/// Judges a batch-delete request: an empty selection is refused, any
/// other yields the identifiers to delete, unparsable entries counting
/// as the absent row zero.
pub fn batch_delete(form: &BatchDeleteForm) -> (r: Result<Vec<u32>, Envelope>)
    ensures
        form.ids@.len() == 0 ==> (r matches Err(e) && !e.success && e.message@ == "未选中数据"@),
        form.ids@.len() != 0 ==> (r matches Ok(ids) && ids@ == spec_ids(form.ids@)),
{
    if form.ids.as_str().is_empty() {
        return Err(error_envelope("未选中数据"));
    }
    Ok(parse_ids(form.ids.as_str()))
}

/// The reply once a batch delete has run.
pub fn batch_delete_done() -> (r: Envelope)
    ensures
        r.success,
        r.message@ == "批量删除成功"@,
{
    success_envelope("批量删除成功")
}

/// Judges a status update: the identifier must be present, the status
/// must be one of the two flags, and the row must exist.
pub fn update_status(
    query: &UpdateStatusQuery,
    form: &UpdateStatusForm,
    found: Option<&GuestbookRecord>,
) -> (r: Result<(), Envelope>)
    ensures
        query.id == 0 ==> (r matches Err(e) && !e.success && e.message@ == "ID不能为空"@),
        query.id != 0 && form.status != 0 && form.status != 1 ==> (r matches Err(e) && !e.success
            && e.message@ == "状态不能为空"@),
        query.id != 0 && (form.status == 0 || form.status == 1) && !spec_guest_found(
            spec_opt_guest(found),
        ) ==> (r matches Err(e) && !e.success && e.message@ == "要更改的留言不存在"@),
        query.id != 0 && (form.status == 0 || form.status == 1) && spec_guest_found(
            spec_opt_guest(found),
        ) ==> r is Ok,
{
    if query.id == 0 {
        return Err(error_envelope("ID不能为空"));
    }
    if form.status != 0 && form.status != 1 {
        return Err(error_envelope("状态不能为空"));
    }
    let ok = match found {
        Some(g) => g.id > 0,
        None => false,
    };
    if !ok {
        return Err(error_envelope("要更改的留言不存在"));
    }
    Ok(())
}

/// The reply once the store has updated, or failed to update, a row.
pub fn update_result(ok: bool) -> (r: Envelope)
    ensures
        r.success == ok,
        ok ==> r.message@ == "更新成功"@,
        !ok ==> r.message@ == "更新失败"@,
{
    if ok {
        success_envelope("更新成功")
    } else {
        error_envelope("更新失败")
    }
}

} // verus!
