//! `nominal_template_*`: versioned workbook definitions.
//!
//! Templates are read-only here; a template handle's main job is feeding a
//! workbook create. The template's layout and content are not exposed.

use vstd::prelude::*;

use crate::actions::{get_action, get_step};
use crate::client::ClientEntry;
use crate::error::{LastError, NominalErrorCode};
use crate::fields::{fail_null, opt_str_getter, str_failed, str_getter, value_getter, write_opt_string};
use crate::handles::{failed_with, free_handle, invalid_handle_msg, lookup, outcome, Registry};
use crate::staging::opt_view;
use crate::strings::{arg_view, write_str_field, StrOut};

verus! {

/// A template as the bridge keeps it: the SDK's template object, which a
/// workbook create needs, and the fields its getters report.
#[derive(Debug)]
pub struct TemplateEntry<T> {
    pub payload: T,
    pub rid: String,
    pub title: String,
    pub description: Option<String>,
    pub commit_id: String,
    /// Where the template is viewed in the Nominal web app.
    pub url: String,
    /// Unix milliseconds, UTC.
    pub created_at_ms: i64,
}

/// Checks fetching the template with the given RID (latest commit on the
/// main branch) and yields the RID.
pub fn nominal_template_get<C>(clients: &Registry<ClientEntry<C>>, err: &mut LastError, client: i32, rid: Option<&[u8]>, out_present: bool) -> (r: Result<String, i32>)
    ensures
        outcome(get_step(clients@, client, arg_view(rid), out_present, "out_template must not be null"@), r, old(err)@, final(err)@),
{
    proof { reveal_strlit("out_template must not be null"); }
    get_action(clients, err, client, rid, out_present, "out_template must not be null")
}

/// Frees a template handle. Freeing twice returns an error.
pub fn nominal_template_free<T>(templates: &mut Registry<TemplateEntry<T>>, err: &mut LastError, template: i32) -> (r: i32)
    ensures
        final(templates)@ == old(templates)@.remove(template),
        final(templates).next_handle() == old(templates).next_handle(),
        old(templates)@.contains_key(template) ==> r == 0 && final(err)@ == old(err)@,
        !old(templates)@.contains_key(template) ==> failed_with(
            r,
            final(err)@,
            (NominalErrorCode::InvalidHandle, invalid_handle_msg("template"@, template)),
        ),
{
    free_handle(templates, err, template, "template")
}

/// Writes the template's RID into the caller buffer.
pub fn nominal_template_rid<T>(templates: &Registry<TemplateEntry<T>>, err: &mut LastError, template: i32, buf_present: bool, cap: u32) -> (r: StrOut)
    ensures
        str_getter(templates@, template, "template"@, |t: TemplateEntry<T>| t.rid@, buf_present, cap, r, old(err)@, final(err)@),
{
    match lookup(templates, err, template, "template") {
        Ok(t) => write_str_field(err, t.rid.as_str(), buf_present, cap as u64),
        Err(code) => str_failed(code),
    }
}

/// Writes the template's title into the caller buffer.
pub fn nominal_template_title<T>(templates: &Registry<TemplateEntry<T>>, err: &mut LastError, template: i32, buf_present: bool, cap: u32) -> (r: StrOut)
    ensures
        str_getter(templates@, template, "template"@, |t: TemplateEntry<T>| t.title@, buf_present, cap, r, old(err)@, final(err)@),
{
    match lookup(templates, err, template, "template") {
        Ok(t) => write_str_field(err, t.title.as_str(), buf_present, cap as u64),
        Err(code) => str_failed(code),
    }
}

/// Writes the template's description and whether one is set.
pub fn nominal_template_description<T>(templates: &Registry<TemplateEntry<T>>, err: &mut LastError, template: i32, buf_present: bool, cap: u32) -> (r: StrOut)
    ensures
        opt_str_getter(templates@, template, "template"@, |t: TemplateEntry<T>| opt_view(t.description), buf_present, cap, r, old(err)@, final(err)@),
{
    match lookup(templates, err, template, "template") {
        Ok(t) => write_opt_string(err, &t.description, buf_present, cap),
        Err(code) => str_failed(code),
    }
}

/// Writes the ID of the template commit the handle holds.
pub fn nominal_template_commit_id<T>(templates: &Registry<TemplateEntry<T>>, err: &mut LastError, template: i32, buf_present: bool, cap: u32) -> (r: StrOut)
    ensures
        str_getter(templates@, template, "template"@, |t: TemplateEntry<T>| t.commit_id@, buf_present, cap, r, old(err)@, final(err)@),
{
    match lookup(templates, err, template, "template") {
        Ok(t) => write_str_field(err, t.commit_id.as_str(), buf_present, cap as u64),
        Err(code) => str_failed(code),
    }
}

/// Writes the URL for viewing the template in the Nominal web app.
pub fn nominal_template_url<T>(templates: &Registry<TemplateEntry<T>>, err: &mut LastError, template: i32, buf_present: bool, cap: u32) -> (r: StrOut)
    ensures
        str_getter(templates@, template, "template"@, |t: TemplateEntry<T>| t.url@, buf_present, cap, r, old(err)@, final(err)@),
{
    match lookup(templates, err, template, "template") {
        Ok(t) => write_str_field(err, t.url.as_str(), buf_present, cap as u64),
        Err(code) => str_failed(code),
    }
}

/// The template's creation time, Unix milliseconds (UTC).
pub fn nominal_template_created_at<T>(templates: &Registry<TemplateEntry<T>>, err: &mut LastError, template: i32, out_present: bool) -> (r: Result<i64, i32>)
    ensures
        value_getter(templates@, template, "template"@, |t: TemplateEntry<T>| t.created_at_ms, out_present, "out_millis must not be null"@, r, old(err)@, final(err)@),
{
    match lookup(templates, err, template, "template") {
        Ok(t) => {
            if !out_present {
                proof { reveal_strlit("out_millis must not be null"); }
                return Err(fail_null(err, "out_millis must not be null"));
            }
            Ok(t.created_at_ms)
        },
        Err(code) => Err(code),
    }
}

} // verus!
