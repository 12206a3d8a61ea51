use crate::number::{parse_i32, read_i32};
use crate::text::{spells, texts};
use vstd::prelude::*;

verus! {

/// The handlers that a message can reach by its first word.
#[derive(Clone, Copy, Debug, PartialEq, Eq, Structural)]
pub enum Handler {
    Help,
    Random,
    Cat,
    Dog,
    SysInfo,
    Eat,
    Breakfast,
    Lunch,
    Dinner,
    MidnightSnack,
    Poem,
    Tarot,
}

/// The table of triggers: the handler that each trigger word stands for.
/// A word is matched as a whole and by case; any other word reaches no
/// handler.
pub open spec fn handler_of(word: Seq<char>) -> Option<Handler> {
    if word == "#help"@ || word == "#h"@ {
        Some(Handler::Help)
    } else if word == "#random"@ || word == "#r"@ || word == "#roll"@ {
        Some(Handler::Random)
    } else if word == "#cat"@ || word == "猫猫图"@ {
        Some(Handler::Cat)
    } else if word == "#dog"@ || word == "狗狗图"@ {
        Some(Handler::Dog)
    } else if word == "#sysinfo"@ {
        Some(Handler::SysInfo)
    } else if word == "#eat"@ || word == "吃什么"@ {
        Some(Handler::Eat)
    } else if word == "#breakfast"@ || word == "早上吃什么"@ || word == "早餐吃什么"@ || word
        == "早餐"@ {
        Some(Handler::Breakfast)
    } else if word == "#lunch"@ || word == "中午吃什么"@ || word == "午餐吃什么"@ || word
        == "午餐"@ {
        Some(Handler::Lunch)
    } else if word == "#dinner"@ || word == "晚上吃什么"@ || word == "晚餐吃什么"@ || word
        == "晚餐"@ {
        Some(Handler::Dinner)
    } else if word == "#midnight_snack"@ || word == "夜宵吃什么"@ || word == "宵夜吃什么"@
        || word == "夜宵"@ || word == "宵夜"@ {
        Some(Handler::MidnightSnack)
    } else if word == "#poem"@ || word == "念诗"@ {
        Some(Handler::Poem)
    } else if word == "#tarot"@ {
        Some(Handler::Tarot)
    } else {
        None
    }
}

pub fn lookup(word: &Vec<char>) -> (handler: Option<Handler>)
    ensures
        handler == handler_of(word@),
{
    if spells(word, "#help") || spells(word, "#h") {
        Some(Handler::Help)
    } else if spells(word, "#random") || spells(word, "#r") || spells(word, "#roll") {
        Some(Handler::Random)
    } else if spells(word, "#cat") || spells(word, "猫猫图") {
        Some(Handler::Cat)
    } else if spells(word, "#dog") || spells(word, "狗狗图") {
        Some(Handler::Dog)
    } else if spells(word, "#sysinfo") {
        Some(Handler::SysInfo)
    } else if spells(word, "#eat") || spells(word, "吃什么") {
        Some(Handler::Eat)
    } else if spells(word, "#breakfast") || spells(word, "早上吃什么") || spells(
        word,
        "早餐吃什么",
    ) || spells(word, "早餐") {
        Some(Handler::Breakfast)
    } else if spells(word, "#lunch") || spells(word, "中午吃什么") || spells(word, "午餐吃什么")
        || spells(word, "午餐") {
        Some(Handler::Lunch)
    } else if spells(word, "#dinner") || spells(word, "晚上吃什么") || spells(
        word,
        "晚餐吃什么",
    ) || spells(word, "晚餐") {
        Some(Handler::Dinner)
    } else if spells(word, "#midnight_snack") || spells(word, "夜宵吃什么") || spells(
        word,
        "宵夜吃什么",
    ) || spells(word, "夜宵") || spells(word, "宵夜") {
        Some(Handler::MidnightSnack)
    } else if spells(word, "#poem") || spells(word, "念诗") {
        Some(Handler::Poem)
    } else if spells(word, "#tarot") {
        Some(Handler::Tarot)
    } else {
        None
    }
}

/// The handler that a message reaches: the one that its first word stands
/// for. A message without words reaches none.
pub open spec fn handler_for(words: Seq<Seq<char>>) -> Option<Handler> {
    if words.len() == 0 {
        None
    } else {
        handler_of(words[0])
    }
}

pub fn dispatch(words: &Vec<Vec<char>>) -> (handler: Option<Handler>)
    ensures
        handler == handler_for(texts(words@)),
{
    if words.len() == 0 {
        None
    } else {
        lookup(&words[0])
    }
}

/// The upper bound that a word asks for: its number, but no more than
/// 10000; `otherwise` where the word is no number.
pub open spec fn upper_bound(word: Seq<char>, otherwise: int) -> int {
    match parse_i32(word) {
        Some(v) => if v >= 10000 {
            10000
        } else {
            v
        },
        None => otherwise,
    }
}

/// The lower bound that a word asks for: its number, with -9999 in place of
/// anything below -10000; `otherwise` where the word is no number.
pub open spec fn lower_bound(word: Seq<char>, otherwise: int) -> int {
    match parse_i32(word) {
        Some(v) => if v < -10000 {
            -9999
        } else {
            v
        },
        None => otherwise,
    }
}

/// The range of a roll. One argument is the upper bound; of two or more,
/// the first is the lower bound and the second the upper. Without
/// arguments the range is 0 to 100. An upper bound under the lower is
/// raised to it.
pub open spec fn dice_range(words: Seq<Seq<char>>) -> (int, int) {
    let min = if words.len() > 2 {
        lower_bound(words[1], 0)
    } else {
        0
    };
    let max = if words.len() == 2 {
        upper_bound(words[1], 100)
    } else if words.len() > 2 {
        upper_bound(words[2], 100)
    } else {
        100
    };
    (
        min,
        if max < min {
            min
        } else {
            max
        },
    )
}

fn upper_of(word: &Vec<char>, otherwise: i32) -> (bound: i32)
    ensures
        bound == upper_bound(word@, otherwise as int),
{
    match read_i32(word) {
        Some(v) => if v >= 10000 {
            10000
        } else {
            v
        },
        None => otherwise,
    }
}

fn lower_of(word: &Vec<char>, otherwise: i32) -> (bound: i32)
    ensures
        bound == lower_bound(word@, otherwise as int),
{
    match read_i32(word) {
        Some(v) => if v < -10000 {
            -9999
        } else {
            v
        },
        None => otherwise,
    }
}

pub fn range_of(words: &Vec<Vec<char>>) -> (range: (i32, i32))
    ensures
        (range.0 as int, range.1 as int) == dice_range(texts(words@)),
        range.0 <= range.1,
{
    let mut min: i32 = 0;
    let mut max: i32 = 100;
    if words.len() == 2 {
        max = upper_of(&words[1], 100);
    } else if words.len() > 2 {
        min = lower_of(&words[1], 0);
        max = upper_of(&words[2], 100);
    }
    if max < min {
        max = min;
    }
    (min, max)
}

/// The range of a roll is never empty, and an upper bound that was asked
/// for under the lower one gives way to it.
pub proof fn lemma_dice_range_is_ordered(words: Seq<Seq<char>>)
    ensures
        dice_range(words).0 <= dice_range(words).1,
        words.len() > 2 && upper_bound(words[2], 100) < lower_bound(words[1], 0) ==> dice_range(
            words,
        ).1 == dice_range(words).0,
{
}

/// The words that stand for a handler.
pub open spec fn triggers(handler: Handler) -> Seq<Seq<char>> {
    match handler {
        Handler::Help => seq!["#help"@, "#h"@],
        Handler::Random => seq!["#random"@, "#r"@, "#roll"@],
        Handler::Cat => seq!["#cat"@, "猫猫图"@],
        Handler::Dog => seq!["#dog"@, "狗狗图"@],
        Handler::SysInfo => seq!["#sysinfo"@],
        Handler::Eat => seq!["#eat"@, "吃什么"@],
        Handler::Breakfast => seq!["#breakfast"@, "早上吃什么"@, "早餐吃什么"@, "早餐"@],
        Handler::Lunch => seq!["#lunch"@, "中午吃什么"@, "午餐吃什么"@, "午餐"@],
        Handler::Dinner => seq!["#dinner"@, "晚上吃什么"@, "晚餐吃什么"@, "晚餐"@],
        Handler::MidnightSnack => seq![
            "#midnight_snack"@,
            "夜宵吃什么"@,
            "宵夜吃什么"@,
            "夜宵"@,
            "宵夜"@,
        ],
        Handler::Poem => seq!["#poem"@, "念诗"@],
        Handler::Tarot => seq!["#tarot"@],
    }
}

proof fn reveal_triggers()
    ensures
        "#help"@.len() == 5 && "#help"@[0] == '#' && "#help"@[1] == 'h',
        "#h"@.len() == 2 && "#h"@[0] == '#' && "#h"@[1] == 'h',
        "#random"@.len() == 7 && "#random"@[1] == 'r',
        "#r"@.len() == 2 && "#r"@[0] == '#' && "#r"@[1] == 'r',
        "#roll"@.len() == 5 && "#roll"@[0] == '#' && "#roll"@[1] == 'r',
        "#cat"@.len() == 4 && "#cat"@[1] == 'c',
        "猫猫图"@.len() == 3 && "猫猫图"@[0] == '猫',
        "#dog"@.len() == 4 && "#dog"@[1] == 'd',
        "狗狗图"@.len() == 3 && "狗狗图"@[0] == '狗',
        "#sysinfo"@.len() == 8 && "#sysinfo"@[1] == 's',
        "#eat"@.len() == 4 && "#eat"@[1] == 'e',
        "吃什么"@.len() == 3 && "吃什么"@[0] == '吃',
        "#breakfast"@.len() == 10,
        "早上吃什么"@.len() == 5 && "早上吃什么"@[0] == '早' && "早上吃什么"@[1] == '上',
        "早餐吃什么"@.len() == 5 && "早餐吃什么"@[0] == '早' && "早餐吃什么"@[1] == '餐',
        "早餐"@.len() == 2 && "早餐"@[0] == '早',
        '#' != '早' && '#' != '午' && '#' != '晚' && '#' != '夜' && '#' != '宵' && '#' != '念' && '#'
            != '中',
        "#lunch"@.len() == 6 && "#lunch"@[1] == 'l',
        "中午吃什么"@.len() == 5 && "中午吃什么"@[0] == '中',
        "午餐吃什么"@.len() == 5 && "午餐吃什么"@[0] == '午',
        "午餐"@.len() == 2 && "午餐"@[0] == '午',
        "#dinner"@.len() == 7 && "#dinner"@[1] == 'd',
        "晚上吃什么"@.len() == 5 && "晚上吃什么"@[0] == '晚' && "晚上吃什么"@[1] == '上',
        "晚餐吃什么"@.len() == 5 && "晚餐吃什么"@[0] == '晚' && "晚餐吃什么"@[1] == '餐',
        "晚餐"@.len() == 2 && "晚餐"@[0] == '晚',
        "#midnight_snack"@.len() == 15,
        "夜宵吃什么"@.len() == 5 && "夜宵吃什么"@[0] == '夜',
        "宵夜吃什么"@.len() == 5 && "宵夜吃什么"@[0] == '宵',
        "夜宵"@.len() == 2 && "夜宵"@[0] == '夜',
        "宵夜"@.len() == 2 && "宵夜"@[0] == '宵',
        "#poem"@.len() == 5 && "#poem"@[0] == '#' && "#poem"@[1] == 'p',
        "念诗"@.len() == 2 && "念诗"@[0] == '念',
        "#tarot"@.len() == 6 && "#tarot"@[1] == 't',
{
    reveal_strlit("#help");
    reveal_strlit("#h");
    reveal_strlit("#random");
    reveal_strlit("#r");
    reveal_strlit("#roll");
    reveal_strlit("#cat");
    reveal_strlit("猫猫图");
    reveal_strlit("#dog");
    reveal_strlit("狗狗图");
    reveal_strlit("#sysinfo");
    reveal_strlit("#eat");
    reveal_strlit("吃什么");
    reveal_strlit("#breakfast");
    reveal_strlit("早上吃什么");
    reveal_strlit("早餐吃什么");
    reveal_strlit("早餐");
    reveal_strlit("#lunch");
    reveal_strlit("中午吃什么");
    reveal_strlit("午餐吃什么");
    reveal_strlit("午餐");
    reveal_strlit("#dinner");
    reveal_strlit("晚上吃什么");
    reveal_strlit("晚餐吃什么");
    reveal_strlit("晚餐");
    reveal_strlit("#midnight_snack");
    reveal_strlit("夜宵吃什么");
    reveal_strlit("宵夜吃什么");
    reveal_strlit("夜宵");
    reveal_strlit("宵夜");
    reveal_strlit("#poem");
    reveal_strlit("念诗");
    reveal_strlit("#tarot");
}

/// The table has no conflict: each trigger reaches the handler that it
/// stands for, and a word reaches a handler only as one of its triggers.
pub proof fn lemma_triggers_reach_their_handler(handler: Handler, word: Seq<char>)
    ensures
        triggers(handler).contains(word) <==> handler_of(word) == Some(handler),
{
    reveal_triggers();
    let t = triggers(handler);
    if t.contains(word) {
        let i = choose|i: int| 0 <= i < t.len() && t[i] == word;
        assert(t[i] == word);
        assert(i == 0 || i == 1 || i == 2 || i == 3 || i == 4);
        assert(handler_of(word) == Some(handler));
    }
    if handler_of(word) == Some(handler) {
        match handler {
            Handler::Help => {
                assert(t[0] == "#help"@ && t[1] == "#h"@);
            },
            Handler::Random => {
                assert(t[0] == "#random"@ && t[1] == "#r"@ && t[2] == "#roll"@);
            },
            Handler::Cat => {
                assert(t[0] == "#cat"@ && t[1] == "猫猫图"@);
            },
            Handler::Dog => {
                assert(t[0] == "#dog"@ && t[1] == "狗狗图"@);
            },
            Handler::SysInfo => {
                assert(t[0] == "#sysinfo"@);
            },
            Handler::Eat => {
                assert(t[0] == "#eat"@ && t[1] == "吃什么"@);
            },
            Handler::Breakfast => {
                assert(t[0] == "#breakfast"@ && t[1] == "早上吃什么"@ && t[2] == "早餐吃什么"@
                    && t[3] == "早餐"@);
            },
            Handler::Lunch => {
                assert(t[0] == "#lunch"@ && t[1] == "中午吃什么"@ && t[2] == "午餐吃什么"@ && t[3]
                    == "午餐"@);
            },
            Handler::Dinner => {
                assert(t[0] == "#dinner"@ && t[1] == "晚上吃什么"@ && t[2] == "晚餐吃什么"@ && t[3]
                    == "晚餐"@);
            },
            Handler::MidnightSnack => {
                assert(t[0] == "#midnight_snack"@ && t[1] == "夜宵吃什么"@ && t[2]
                    == "宵夜吃什么"@ && t[3] == "夜宵"@ && t[4] == "宵夜"@);
            },
            Handler::Poem => {
                assert(t[0] == "#poem"@ && t[1] == "念诗"@);
            },
            Handler::Tarot => {
                assert(t[0] == "#tarot"@);
            },
        }
    }
}

} // verus!
