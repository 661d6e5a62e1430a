//! The update line of the About pages.

use lib::about::update_status;

#[test]
fn the_update_line_goes_by_priority() {
    let v = || Some("1.2.0".to_string());
    assert_eq!(update_status(true, Some("超时".to_string()), v(), true, 5), "正在检查…");
    assert_eq!(update_status(false, Some("超时".to_string()), v(), true, 5), "检查失败：超时");
    assert_eq!(update_status(false, None, v(), true, 5), "有新版本 1.2.0");
    assert_eq!(update_status(false, None, None, true, 5), "本地开发版，不检查更新");
    assert_eq!(update_status(false, None, None, false, 5), "已是最新版本");
    assert_eq!(update_status(false, None, None, false, 0), "");
}
