//! The curated phrase tables of the completion evaluator, each as a spec
//! predicate over a text together with its verified containment scan:
//! failure markers in tool-result bodies, write-like and read-like shell
//! commands, filesystem-write claims, completion and progress markers, and
//! the transport-error patterns the engine treats as retryable.

use vstd::prelude::*;

use crate::text::{contains_ci, contains_seq, str_contains, str_contains_ci};

verus! {

/// A tool-result body that reports failure: it names one of the failure
/// markers, case-insensitively.
pub open spec fn is_failure_body(s: Seq<char>) -> bool {
    contains_ci(s, "failed"@) || contains_ci(s, "error"@) || contains_ci(s, "not allowed"@)
        || contains_ci(s, "denied"@) || contains_ci(s, "missing"@)
        || contains_ci(s, "refusing"@)
}

pub fn failure_body(s: &str) -> (r: bool)
    ensures
        r == is_failure_body(s@),
{
    str_contains_ci(s, "failed") || str_contains_ci(s, "error")
        || str_contains_ci(s, "not allowed") || str_contains_ci(s, "denied")
        || str_contains_ci(s, "missing") || str_contains_ci(s, "refusing")
}

/// A shell command that writes: redirections and the common file-creating
/// commands. Write tests are applied before read tests.
pub open spec fn is_write_command(s: Seq<char>) -> bool {
    contains_ci(s, ">>"@) || contains_ci(s, " > "@) || contains_ci(s, "\n>"@)
        || contains_ci(s, "tee "@) || contains_ci(s, "touch "@) || contains_ci(s, "mkdir "@)
        || contains_ci(s, "cp "@) || contains_ci(s, "mv "@) || contains_ci(s, "truncate "@)
        || contains_ci(s, "sed -i"@) || contains_ci(s, "perl -i"@)
}

pub fn write_command(s: &str) -> (r: bool)
    ensures
        r == is_write_command(s@),
{
    str_contains_ci(s, ">>") || str_contains_ci(s, " > ") || str_contains_ci(s, "\n>")
        || str_contains_ci(s, "tee ") || str_contains_ci(s, "touch ")
        || str_contains_ci(s, "mkdir ") || str_contains_ci(s, "cp ")
        || str_contains_ci(s, "mv ") || str_contains_ci(s, "truncate ")
        || str_contains_ci(s, "sed -i") || str_contains_ci(s, "perl -i")
}

/// A shell command that reads: the common file-inspecting commands.
pub open spec fn is_read_command(s: Seq<char>) -> bool {
    contains_ci(s, "cat "@) || contains_ci(s, "less "@) || contains_ci(s, "more "@)
        || contains_ci(s, "head "@) || contains_ci(s, "tail "@) || contains_ci(s, "wc "@)
        || contains_ci(s, "stat "@) || contains_ci(s, "ls "@) || contains_ci(s, "find "@)
        || contains_ci(s, "rg "@) || contains_ci(s, "grep "@) || contains_ci(s, "sed -n"@)
        || contains_ci(s, "nl "@)
}

pub fn read_command(s: &str) -> (r: bool)
    ensures
        r == is_read_command(s@),
{
    str_contains_ci(s, "cat ") || str_contains_ci(s, "less ") || str_contains_ci(s, "more ")
        || str_contains_ci(s, "head ") || str_contains_ci(s, "tail ")
        || str_contains_ci(s, "wc ") || str_contains_ci(s, "stat ")
        || str_contains_ci(s, "ls ") || str_contains_ci(s, "find ")
        || str_contains_ci(s, "rg ") || str_contains_ci(s, "grep ")
        || str_contains_ci(s, "sed -n") || str_contains_ci(s, "nl ")
}

/// One of the Chinese write-claim markers occurs in the raw text.
pub open spec fn has_cn_write_marker(s: Seq<char>) -> bool {
    contains_seq(s, "已写入"@) || contains_seq(s, "已经写入"@) || contains_seq(s, "写到了"@)
        || contains_seq(s, "已保存"@) || contains_seq(s, "已经保存"@)
        || contains_seq(s, "保存到"@) || contains_seq(s, "保存在"@)
        || contains_seq(s, "保存于"@) || contains_seq(s, "已存储"@)
        || contains_seq(s, "已经存储"@) || contains_seq(s, "存储到"@)
        || contains_seq(s, "已创建"@) || contains_seq(s, "已经创建"@)
        || contains_seq(s, "成功创建"@) || contains_seq(s, "已成功创建"@)
        || contains_seq(s, "文件已成功创建"@) || contains_seq(s, "已生成"@)
        || contains_seq(s, "已经生成"@) || contains_seq(s, "已更新"@)
        || contains_seq(s, "已经更新"@)
}

fn cn_write_marker(s: &str) -> (r: bool)
    ensures
        r == has_cn_write_marker(s@),
{
    str_contains(s, "已写入") || str_contains(s, "已经写入") || str_contains(s, "写到了")
        || str_contains(s, "已保存") || str_contains(s, "已经保存")
        || str_contains(s, "保存到") || str_contains(s, "保存在")
        || str_contains(s, "保存于") || str_contains(s, "已存储")
        || str_contains(s, "已经存储") || str_contains(s, "存储到")
        || str_contains(s, "已创建") || str_contains(s, "已经创建")
        || str_contains(s, "成功创建") || str_contains(s, "已成功创建")
        || str_contains(s, "文件已成功创建") || str_contains(s, "已生成")
        || str_contains(s, "已经生成") || str_contains(s, "已更新")
        || str_contains(s, "已经更新")
}

/// One of the English completion verbs occurs, case-insensitively.
pub open spec fn has_write_verb(s: Seq<char>) -> bool {
    contains_ci(s, "i wrote"@) || contains_ci(s, "written to"@) || contains_ci(s, "saved to"@)
        || contains_ci(s, "saved as"@) || contains_ci(s, "has been saved"@)
        || contains_ci(s, "has been written"@) || contains_ci(s, "created at"@)
        || contains_ci(s, "created the file"@) || contains_ci(s, "updated the file"@)
        || contains_ci(s, "generated the report"@) || contains_ci(s, "i updated"@)
        || contains_ci(s, "i created"@) || contains_ci(s, "i saved"@)
}

fn write_verb(s: &str) -> (r: bool)
    ensures
        r == has_write_verb(s@),
{
    str_contains_ci(s, "i wrote") || str_contains_ci(s, "written to")
        || str_contains_ci(s, "saved to") || str_contains_ci(s, "saved as")
        || str_contains_ci(s, "has been saved") || str_contains_ci(s, "has been written")
        || str_contains_ci(s, "created at") || str_contains_ci(s, "created the file")
        || str_contains_ci(s, "updated the file") || str_contains_ci(s, "generated the report")
        || str_contains_ci(s, "i updated") || str_contains_ci(s, "i created")
        || str_contains_ci(s, "i saved")
}

/// Something in the text points at a file: a path separator, a file
/// extension, or a path-like word, case-insensitively.
pub open spec fn has_file_indicator(s: Seq<char>) -> bool {
    contains_ci(s, "/"@) || contains_ci(s, "\\"@) || contains_ci(s, ".md"@)
        || contains_ci(s, ".txt"@) || contains_ci(s, ".rs"@) || contains_ci(s, ".json"@)
        || contains_ci(s, ".yaml"@) || contains_ci(s, ".yml"@) || contains_ci(s, ".toml"@)
        || contains_ci(s, " file "@) || contains_ci(s, " path "@) || contains_ci(s, "docs/"@)
        || contains_ci(s, "src/"@)
}

fn file_indicator(s: &str) -> (r: bool)
    ensures
        r == has_file_indicator(s@),
{
    str_contains_ci(s, "/") || str_contains_ci(s, "\\") || str_contains_ci(s, ".md")
        || str_contains_ci(s, ".txt") || str_contains_ci(s, ".rs")
        || str_contains_ci(s, ".json") || str_contains_ci(s, ".yaml")
        || str_contains_ci(s, ".yml") || str_contains_ci(s, ".toml")
        || str_contains_ci(s, " file ") || str_contains_ci(s, " path ")
        || str_contains_ci(s, "docs/") || str_contains_ci(s, "src/")
}

/// The reply claims a filesystem write: either a Chinese write-claim marker
/// in the raw text, or an English completion verb next to a file indicator.
pub open spec fn is_write_claim(s: Seq<char>) -> bool {
    has_cn_write_marker(s) || (has_write_verb(s) && has_file_indicator(s))
}

pub fn write_claim(s: &str) -> (r: bool)
    ensures
        r == is_write_claim(s@),
{
    cn_write_marker(s) || (write_verb(s) && file_indicator(s))
}

/// A completion marker, checked both case-insensitively and against the raw
/// text; any such marker vetoes the in-progress classification.
pub open spec fn has_completion_marker(s: Seq<char>) -> bool {
    contains_ci(s, "done"@) || contains_seq(s, "done"@)
        || contains_ci(s, "completed"@) || contains_seq(s, "completed"@)
        || contains_ci(s, "finished"@) || contains_seq(s, "finished"@)
        || contains_ci(s, "successfully"@) || contains_seq(s, "successfully"@)
        || contains_ci(s, "已完成"@) || contains_seq(s, "已完成"@)
        || contains_ci(s, "已经完成"@) || contains_seq(s, "已经完成"@)
        || contains_ci(s, "完成了"@) || contains_seq(s, "完成了"@)
        || contains_ci(s, "已写入"@) || contains_seq(s, "已写入"@)
        || contains_ci(s, "已经写入"@) || contains_seq(s, "已经写入"@)
        || contains_ci(s, "已保存"@) || contains_seq(s, "已保存"@)
        || contains_ci(s, "已经保存"@) || contains_seq(s, "已经保存"@)
        || contains_ci(s, "成功创建"@) || contains_seq(s, "成功创建"@)
        || contains_ci(s, "已生成"@) || contains_seq(s, "已生成"@)
        || contains_ci(s, "已经生成"@) || contains_seq(s, "已经生成"@)
        || contains_ci(s, "已更新"@) || contains_seq(s, "已更新"@)
        || contains_ci(s, "已经更新"@) || contains_seq(s, "已经更新"@)
}

fn completion_marker(s: &str) -> (r: bool)
    ensures
        r == has_completion_marker(s@),
{
    str_contains_ci(s, "done") || str_contains(s, "done")
        || str_contains_ci(s, "completed") || str_contains(s, "completed")
        || str_contains_ci(s, "finished") || str_contains(s, "finished")
        || str_contains_ci(s, "successfully") || str_contains(s, "successfully")
        || str_contains_ci(s, "已完成") || str_contains(s, "已完成")
        || str_contains_ci(s, "已经完成") || str_contains(s, "已经完成")
        || str_contains_ci(s, "完成了") || str_contains(s, "完成了")
        || str_contains_ci(s, "已写入") || str_contains(s, "已写入")
        || str_contains_ci(s, "已经写入") || str_contains(s, "已经写入")
        || str_contains_ci(s, "已保存") || str_contains(s, "已保存")
        || str_contains_ci(s, "已经保存") || str_contains(s, "已经保存")
        || str_contains_ci(s, "成功创建") || str_contains(s, "成功创建")
        || str_contains_ci(s, "已生成") || str_contains(s, "已生成")
        || str_contains_ci(s, "已经生成") || str_contains(s, "已经生成")
        || str_contains_ci(s, "已更新") || str_contains(s, "已更新")
        || str_contains_ci(s, "已经更新") || str_contains(s, "已经更新")
}

/// A progress marker, checked both case-insensitively and against the raw
/// text.
pub open spec fn has_progress_marker(s: Seq<char>) -> bool {
    contains_ci(s, "i'm checking"@) || contains_seq(s, "i'm checking"@)
        || contains_ci(s, "let me check"@) || contains_seq(s, "let me check"@)
        || contains_ci(s, "i am checking"@) || contains_seq(s, "i am checking"@)
        || contains_ci(s, "i'm reviewing"@) || contains_seq(s, "i'm reviewing"@)
        || contains_ci(s, "let me review"@) || contains_seq(s, "let me review"@)
        || contains_ci(s, "i need to inspect"@) || contains_seq(s, "i need to inspect"@)
        || contains_ci(s, "working on"@) || contains_seq(s, "working on"@)
        || contains_ci(s, "currently implementing"@) || contains_seq(s, "currently implementing"@)
        || contains_ci(s, "我正在"@) || contains_seq(s, "我正在"@)
        || contains_ci(s, "让我检查"@) || contains_seq(s, "让我检查"@)
        || contains_ci(s, "我先检查"@) || contains_seq(s, "我先检查"@)
        || contains_ci(s, "让我先查看"@) || contains_seq(s, "让我先查看"@)
        || contains_ci(s, "我需要先查看"@) || contains_seq(s, "我需要先查看"@)
        || contains_ci(s, "正在实施"@) || contains_seq(s, "正在实施"@)
}

fn progress_marker(s: &str) -> (r: bool)
    ensures
        r == has_progress_marker(s@),
{
    str_contains_ci(s, "i'm checking") || str_contains(s, "i'm checking")
        || str_contains_ci(s, "let me check") || str_contains(s, "let me check")
        || str_contains_ci(s, "i am checking") || str_contains(s, "i am checking")
        || str_contains_ci(s, "i'm reviewing") || str_contains(s, "i'm reviewing")
        || str_contains_ci(s, "let me review") || str_contains(s, "let me review")
        || str_contains_ci(s, "i need to inspect") || str_contains(s, "i need to inspect")
        || str_contains_ci(s, "working on") || str_contains(s, "working on")
        || str_contains_ci(s, "currently implementing") || str_contains(s, "currently implementing")
        || str_contains_ci(s, "我正在") || str_contains(s, "我正在")
        || str_contains_ci(s, "让我检查") || str_contains(s, "让我检查")
        || str_contains_ci(s, "我先检查") || str_contains(s, "我先检查")
        || str_contains_ci(s, "让我先查看") || str_contains(s, "让我先查看")
        || str_contains_ci(s, "我需要先查看") || str_contains(s, "我需要先查看")
        || str_contains_ci(s, "正在实施") || str_contains(s, "正在实施")
}

/// The reply reads as a progress-only update: a progress marker with no
/// completion marker anywhere in the text.
pub open spec fn is_in_progress_update(s: Seq<char>) -> bool {
    !has_completion_marker(s) && has_progress_marker(s)
}

pub fn in_progress_update(s: &str) -> (r: bool)
    ensures
        r == is_in_progress_update(s@),
{
    !completion_marker(s) && progress_marker(s)
}

/// A rendered error that names a low-level network failure, which the
/// engine retries.
pub open spec fn is_retryable_transport(s: Seq<char>) -> bool {
    contains_ci(s, "transport error"@) || contains_ci(s, "error sending request for url"@)
        || contains_ci(s, "connection reset"@) || contains_ci(s, "connection refused"@)
        || contains_ci(s, "timed out"@)
}

pub fn retryable_transport(s: &str) -> (r: bool)
    ensures
        r == is_retryable_transport(s@),
{
    str_contains_ci(s, "transport error") || str_contains_ci(s, "error sending request for url")
        || str_contains_ci(s, "connection reset") || str_contains_ci(s, "connection refused")
        || str_contains_ci(s, "timed out")
}

} // verus!
