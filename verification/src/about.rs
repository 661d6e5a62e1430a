//! The line beside "check now" on the Windows settings' About page.

use vstd::prelude::*;

use crate::text::{append, string_of};

verus! {

pub open spec fn update_status_text(
    checking: bool,
    error: Option<String>,
    available: Option<String>,
    dev_version: bool,
    checked_at: u64,
) -> Seq<char> {
    if checking {
        "正在检查…"@
    } else {
        match error {
            Some(e) => "检查失败："@ + e@,
            None => match available {
                Some(version) => "有新版本 "@ + version@,
                None => if dev_version {
                    "本地开发版，不检查更新"@
                } else if checked_at > 0 {
                    "已是最新版本"@
                } else {
                    seq![]
                },
            },
        }
    }
}

/// The update line: a running check, then a failed one, then the newer version found
/// (`available`, as the update checker reports it for the configured channel), a
/// development build (never checked), a check that found nothing, or nothing at all.
pub fn update_status(
    checking: bool,
    error: Option<String>,
    available: Option<String>,
    dev_version: bool,
    checked_at: u64,
) -> (r: String)
    ensures
        r@ == update_status_text(checking, error, available, dev_version, checked_at),
{
    if checking {
        return string_of("正在检查…");
    }
    if let Some(e) = error {
        let mut s = string_of("检查失败：");
        append(&mut s, e.as_str());
        return s;
    }
    match available {
        Some(version) => {
            let mut s = string_of("有新版本 ");
            append(&mut s, version.as_str());
            s
        },
        None => if dev_version {
            string_of("本地开发版，不检查更新")
        } else if checked_at > 0 {
            string_of("已是最新版本")
        } else {
            String::new()
        },
    }
}

} // verus!
