//! Messages of the command line, in the default locale.
use vstd::prelude::*;
use vstd::string::StringExecFns;

verus! {

/// The locales the command line knows.
#[derive(Debug, Clone, Copy, PartialEq, Eq, Hash, Structural)]
pub enum Locale {
    En,
    ZhCN,
}

/// The message for `key`; a key without a message stands for itself.
pub open spec fn message_for(key: Seq<char>) -> Seq<char> {
    if key == "cli.about"@ {
        "ZeroClaw - 零开销，零妥协，100% Rust"@
    } else if key == "common.loading"@ {
        "加载中..."@
    } else if key == "common.error"@ {
        "发生错误。"@
    } else {
        key
    }
}

/// The message for `key`, or `key` itself where there is none.
pub fn t(key: &str) -> (r: String)
    ensures
        r@ == message_for(key@),
{
    let k = String::from_str(key);
    if k == String::from_str("cli.about") {
        String::from_str("ZeroClaw - 零开销，零妥协，100% Rust")
    } else if k == String::from_str("common.loading") {
        String::from_str("加载中...")
    } else if k == String::from_str("common.error") {
        String::from_str("发生错误。")
    } else {
        k
    }
}

/// Access to the command line's messages.
#[derive(Debug, Clone, Copy, Default)]
pub struct CliTranslations;

impl CliTranslations {
    pub fn new() -> (r: Self) {
        CliTranslations
    }

    /// The message for `key`, as `t` gives it.
    pub fn get(&self, key: &str) -> (r: String)
        ensures
            r@ == message_for(key@),
    {
        t(key)
    }
}

} // verus!
