use crate::arithmetic::{mention, push_mention};
use crate::json::{find_member, json_document, parse, Json};
use crate::link::text_of;
use crate::number::{decimal, int_text, push_decimal, push_int};
use crate::text::{push_str, string_of};
use rand::Rng;
use vstd::prelude::*;

verus! {

/// The list of commands.
pub open spec fn help_text() -> Seq<char> {
    "#help\n    显示本帮助\n#random #r #roll\n    掷骰子\n#cat 猫猫图\n    猫猫图\n#dog 狗狗图\n    狗狗图\n#eat 吃什么\n    今天吃点什么呢……\n#breakfast 早上吃什么 早餐吃什么 早餐\n    早上吃点什么呢……\n#lunch 中午吃什么 午餐吃什么 午餐\n    中午吃点什么呢……\n#dinner 晚上吃什么 晚餐吃什么 晚餐\n    晚上吃点什么呢……\n#midnight_snack 夜宵吃什么 宵夜吃什么 夜宵 宵夜\n    夜宵吃点什么呢……\n#poem 念诗\n    念句诗"@
}

pub fn help() -> (reply: String)
    ensures
        reply@ == help_text(),
{
    String::from_str(
        "#help\n    显示本帮助\n#random #r #roll\n    掷骰子\n#cat 猫猫图\n    猫猫图\n#dog 狗狗图\n    狗狗图\n#eat 吃什么\n    今天吃点什么呢……\n#breakfast 早上吃什么 早餐吃什么 早餐\n    早上吃点什么呢……\n#lunch 中午吃什么 午餐吃什么 午餐\n    中午吃点什么呢……\n#dinner 晚上吃什么 晚餐吃什么 晚餐\n    晚上吃点什么呢……\n#midnight_snack 夜宵吃什么 宵夜吃什么 夜宵 宵夜\n    夜宵吃点什么呢……\n#poem 念诗\n    念句诗",
    )
}

/// The announcement of a roll to the user who asked for it.
pub open spec fn dice_text(sender: u64, dice: int) -> Seq<char> {
    mention(sender) + "掷出了"@ + int_text(dice) + "点！"@
}

pub fn dice_reply(sender: u64, dice: i32) -> (reply: String)
    ensures
        reply@ == dice_text(sender, dice as int),
{
    let mut out: Vec<char> = Vec::new();
    push_mention(&mut out, sender);
    push_str(&mut out, "掷出了");
    push_int(&mut out, dice as i128);
    push_str(&mut out, "点！");
    assert(out@ =~= dice_text(sender, dice as int));
    string_of(&out)
}

/// `rand::Rng::gen_range` over `min..=max` on the thread-local generator:
/// some number within the range. An empty range is excluded, as the
/// generator refuses one.
#[verifier::external_body]
pub(crate) fn roll(min: i32, max: i32) -> (dice: i32)
    requires
        min <= max,
    ensures
        min <= dice <= max,
{
    rand::thread_rng().gen_range(min..=max)
}

/// The picture message for the first entry of a list of pictures: the
/// address under `url` of the first element of the array.
pub open spec fn image_text(doc: Json) -> Option<Seq<char>> {
    match doc {
        Json::Array(items) => if items@.len() > 0 {
            match items@[0].member("url"@) {
                Some(Json::Text(url)) => Some("[CQ:image,file="@ + url@ + "]"@),
                _ => None,
            }
        } else {
            None
        },
        _ => None,
    }
}

/// The picture message for a response body, where the body lists a
/// picture.
pub open spec fn image_line(body: Seq<char>) -> Option<Seq<char>> {
    match json_document(body) {
        Some(doc) => image_text(doc),
        None => None,
    }
}

pub fn image_of(doc: &Json) -> (line: Option<String>)
    ensures
        text_of(line) == image_text(*doc),
{
    match doc {
        Json::Array(items) => {
            if items.len() > 0 {
                match items[0].get("url") {
                    Some(Json::Text(url)) => {
                        let mut out: Vec<char> = Vec::new();
                        push_str(&mut out, "[CQ:image,file=");
                        push_str(&mut out, url.as_str());
                        push_str(&mut out, "]");
                        assert(out@ =~= "[CQ:image,file="@ + url@ + "]"@);
                        Some(string_of(&out))
                    },
                    _ => None,
                }
            } else {
                None
            }
        },
        _ => None,
    }
}

pub fn image_reply(body: &str) -> (line: Option<String>)
    ensures
        text_of(line) == image_line(body@),
{
    match parse(body) {
        Some(doc) => image_of(&doc),
        None => None,
    }
}

/// Whether every member is a string.
pub open spec fn all_text(members: Seq<(String, Json)>) -> bool {
    forall|i: int| 0 <= i < members.len() ==> (#[trigger] members[i]).1 is Text
}

/// The verse of a document: its member `content`, where the document is an
/// object whose members are all strings.
pub open spec fn poem_text(doc: Json) -> Option<Seq<char>> {
    match doc {
        Json::Object(members) => if all_text(members@) {
            match find_member(members@, "content"@) {
                Some(Json::Text(content)) => Some(content@),
                _ => None,
            }
        } else {
            None
        },
        _ => None,
    }
}

/// The verse of a response body, where the body holds one.
pub open spec fn poem_line(body: Seq<char>) -> Option<Seq<char>> {
    match json_document(body) {
        Some(doc) => poem_text(doc),
        None => None,
    }
}

fn only_text(members: &Vec<(String, Json)>) -> (b: bool)
    ensures
        b == all_text(members@),
{
    let mut i: usize = 0;
    while i < members.len()
        invariant
            i <= members.len(),
            forall|j: int| 0 <= j < i ==> (#[trigger] members@[j]).1 is Text,
        decreases members.len() - i,
    {
        match &members[i].1 {
            Json::Text(_) => {},
            _ => {
                assert(!(members@[i as int].1 is Text));
                return false;
            },
        }
        i += 1;
    }
    true
}

pub fn poem_of(doc: &Json) -> (line: Option<String>)
    ensures
        text_of(line) == poem_text(*doc),
{
    match doc {
        Json::Object(members) => {
            if only_text(members) {
                match doc.get("content") {
                    Some(Json::Text(content)) => Some(content.clone()),
                    _ => None,
                }
            } else {
                None
            }
        },
        _ => None,
    }
}

pub fn poem_reply(body: &str) -> (line: Option<String>)
    ensures
        text_of(line) == poem_line(body@),
{
    match parse(body) {
        Some(doc) => poem_of(&doc),
        None => None,
    }
}

/// What the machine reports of itself. The load of each core comes already
/// written as a percentage.
pub struct SystemSnapshot {
    pub name: String,
    pub kernel_version: String,
    pub os_version: String,
    pub used_memory: u64,
    pub total_memory: u64,
    pub used_swap: u64,
    pub total_swap: u64,
    pub core_loads: Vec<String>,
}

/// The items joined by single spaces.
pub open spec fn joined(items: Seq<String>) -> Seq<char>
    decreases items.len(),
{
    if items.len() == 0 {
        Seq::empty()
    } else if items.len() == 1 {
        items[0]@
    } else {
        joined(items.drop_last()) + " "@ + items.last()@
    }
}

/// A number of bytes in whole mebibytes.
pub open spec fn mebibytes(bytes: u64) -> Seq<char> {
    decimal((bytes / 1048576) as nat)
}

/// The report on the machine: its system, kernel and version, the memory
/// and swap in use and in all, in mebibytes, and the load of each core.
pub open spec fn system_text(s: SystemSnapshot) -> Seq<char> {
    "系统："@ + s.name@ + "\n内核版本："@ + s.kernel_version@ + "\n系统版本："@ + s.os_version@
        + "\n内存用量："@ + mebibytes(s.used_memory) + " MiB / "@ + mebibytes(s.total_memory)
        + " MiB\n交换用量："@ + mebibytes(s.used_swap) + " MiB / "@ + mebibytes(s.total_swap)
        + " MiB\n核心负载："@ + joined(s.core_loads@)
}

fn push_joined(out: &mut Vec<char>, items: &Vec<String>)
    ensures
        final(out)@ == old(out)@ + joined(items@),
{
    let mut i: usize = 0;
    assert(items@.take(0) =~= Seq::<String>::empty());
    assert(out@ =~= old(out)@ + joined(items@.take(0)));
    while i < items.len()
        invariant
            i <= items.len(),
            out@ == old(out)@ + joined(items@.take(i as int)),
        decreases items.len() - i,
    {
        proof {
            assert(items@.take(i + 1).drop_last() =~= items@.take(i as int));
            assert(items@.take(i + 1).last() == items@[i as int]);
        }
        if i > 0 {
            push_str(out, " ");
        }
        push_str(out, items[i].as_str());
        proof {
            if i == 0 {
                assert(items@.take(1)[0] == items@[0]);
                assert(out@ =~= old(out)@ + joined(items@.take(1)));
            } else {
                assert(out@ =~= old(out)@ + joined(items@.take(i + 1)));
            }
        }
        i += 1;
    }
    assert(items@.take(items@.len() as int) =~= items@);
}

pub fn system_report(s: &SystemSnapshot) -> (reply: String)
    ensures
        reply@ == system_text(*s),
{
    let mut out: Vec<char> = Vec::new();
    push_str(&mut out, "系统：");
    push_str(&mut out, s.name.as_str());
    push_str(&mut out, "\n内核版本：");
    push_str(&mut out, s.kernel_version.as_str());
    push_str(&mut out, "\n系统版本：");
    push_str(&mut out, s.os_version.as_str());
    push_str(&mut out, "\n内存用量：");
    push_decimal(&mut out, (s.used_memory / 1048576) as u128);
    push_str(&mut out, " MiB / ");
    push_decimal(&mut out, (s.total_memory / 1048576) as u128);
    push_str(&mut out, " MiB\n交换用量：");
    push_decimal(&mut out, (s.used_swap / 1048576) as u128);
    push_str(&mut out, " MiB / ");
    push_decimal(&mut out, (s.total_swap / 1048576) as u128);
    push_str(&mut out, " MiB\n核心负载：");
    push_joined(&mut out, &s.core_loads);
    assert(out@ =~= system_text(*s));
    string_of(&out)
}

} // verus!
