use eventbot::arithmetic::{arithmetic_replies, arithmetic_reply, classify, evaluate_lines, Evaluated, Shape};
use eventbot::command::{dispatch, lookup, range_of, Handler};
use eventbot::handlers::{dice_reply, help, image_reply, poem_reply, system_report, SystemSnapshot};
use eventbot::link::{link_stage, payload_of};
use eventbot::meals::Eat;
use eventbot::message::IncomingMessage;
use eventbot::router::{compose, gather, plan, route, Action, Draws, Event, FETCH_TIMEOUT_SECONDS};
use eventbot::text::{chars_of, split_words, string_of};

fn direct(text: &str) -> IncomingMessage {
    IncomingMessage { msg: text.to_string(), group: None, sender: 42 }
}

fn menu() -> Eat {
    Eat {
        breakfast: vec!["豆浆".to_string(), "油条".to_string()],
        lunch: vec!["面".to_string()],
        dinner: vec!["饭".to_string(), "粥".to_string()],
        midnight_snack: vec![],
    }
}

fn number(x: f64) -> Evaluated {
    Evaluated { bits: x.to_bits(), text: format!("{}", x) }
}

fn shown(x: f64) -> String {
    arithmetic_reply(1, &number(x))
}

#[test]
fn one_plus_one_is_two() {
    assert_eq!(route(&direct("1+1"), &Event::Nothing), vec!["[CQ:at,qq=42]2".to_string()]);
}

#[test]
fn division_by_zero_is_too_large() {
    assert_eq!(route(&direct("1/0"), &Event::Nothing), vec!["[CQ:at,qq=42]太大了自己算去".to_string()]);
    assert_eq!(route(&direct("-1/0"), &Event::Nothing), vec!["[CQ:at,qq=42]太大了自己算去".to_string()]);
}

#[test]
fn plain_words_are_no_expression() {
    assert!(route(&direct("hello"), &Event::Nothing).is_empty());
}

#[test]
fn fractions_keep_their_digits() {
    assert_eq!(route(&direct("1/4"), &Event::Nothing), vec!["[CQ:at,qq=42]0.25".to_string()]);
    assert_eq!(
        route(&direct("1/3"), &Event::Nothing),
        vec!["[CQ:at,qq=42]0.3333333333333333".to_string()]
    );
}

#[test]
fn each_line_is_evaluated_on_its_own() {
    assert_eq!(
        route(&direct("1+1\r\nhello\n2*3\n\n7/2"), &Event::Nothing),
        vec!["[CQ:at,qq=42]2".to_string(), "[CQ:at,qq=42]6".to_string(), "[CQ:at,qq=42]3.5".to_string()]
    );
}

#[test]
fn empty_message_gets_nothing() {
    assert!(route(&direct(""), &Event::Nothing).is_empty());
    assert!(route(&direct("   \n\t "), &Event::Nothing).is_empty());
    assert!(matches!(plan(&direct("")), Action::Nothing));
}

#[test]
fn random_stays_in_its_range() {
    for _ in 0..200 {
        let replies = route(&direct("#random 5 10"), &Event::Nothing);
        assert_eq!(replies.len(), 1);
        let text = &replies[0];
        let number: i32 = text
            .strip_prefix("[CQ:at,qq=42]掷出了")
            .and_then(|rest| rest.strip_suffix("点！"))
            .unwrap()
            .parse()
            .unwrap();
        assert!((5..=10).contains(&number), "{}", number);
    }
}

#[test]
fn random_with_max_under_min_gives_min() {
    for _ in 0..20 {
        assert_eq!(
            route(&direct("#random 50 10"), &Event::Nothing),
            vec!["[CQ:at,qq=42]掷出了50点！".to_string()]
        );
    }
}

#[test]
fn dice_ranges() {
    let range = |s: &str| range_of(&split_words(&chars_of(s)));
    assert_eq!(range("#r"), (0, 100));
    assert_eq!(range("#r 6"), (0, 6));
    assert_eq!(range("#r 20000"), (0, 10000));
    assert_eq!(range("#r 10000"), (0, 10000));
    assert_eq!(range("#r 9999"), (0, 9999));
    assert_eq!(range("#r -5"), (0, 0));
    assert_eq!(range("#r x"), (0, 100));
    assert_eq!(range("#r 5 10"), (5, 10));
    assert_eq!(range("#r 5 10 99"), (5, 10));
    assert_eq!(range("#r 50 10"), (50, 50));
    assert_eq!(range("#r -20000 10"), (-9999, 10));
    assert_eq!(range("#r -10000 10"), (-10000, 10));
    assert_eq!(range("#r -10001 10"), (-9999, 10));
    assert_eq!(range("#r x 10"), (0, 10));
    assert_eq!(range("#r 5 x"), (5, 100));
    assert_eq!(range("#r 500 x"), (500, 500));
    assert_eq!(range("#r 2000000000 5"), (2000000000, 2000000000));
    assert_eq!(range("#r -3 -8"), (-3, -3));
    assert_eq!(range("#r -8 -3"), (-8, -3));
}

#[test]
fn every_trigger_reaches_its_handler() {
    let table: [(&str, Handler); 30] = [
        ("#help", Handler::Help),
        ("#h", Handler::Help),
        ("#random", Handler::Random),
        ("#r", Handler::Random),
        ("#roll", Handler::Random),
        ("#cat", Handler::Cat),
        ("猫猫图", Handler::Cat),
        ("#dog", Handler::Dog),
        ("狗狗图", Handler::Dog),
        ("#sysinfo", Handler::SysInfo),
        ("#eat", Handler::Eat),
        ("吃什么", Handler::Eat),
        ("#breakfast", Handler::Breakfast),
        ("早上吃什么", Handler::Breakfast),
        ("早餐吃什么", Handler::Breakfast),
        ("早餐", Handler::Breakfast),
        ("#lunch", Handler::Lunch),
        ("中午吃什么", Handler::Lunch),
        ("午餐吃什么", Handler::Lunch),
        ("午餐", Handler::Lunch),
        ("#dinner", Handler::Dinner),
        ("晚上吃什么", Handler::Dinner),
        ("晚餐吃什么", Handler::Dinner),
        ("晚餐", Handler::Dinner),
        ("#midnight_snack", Handler::MidnightSnack),
        ("夜宵吃什么", Handler::MidnightSnack),
        ("宵夜吃什么", Handler::MidnightSnack),
        ("夜宵", Handler::MidnightSnack),
        ("宵夜", Handler::MidnightSnack),
        ("#poem", Handler::Poem),
    ];
    for (word, handler) in table {
        assert_eq!(lookup(&chars_of(word)), Some(handler), "{}", word);
    }
    assert_eq!(lookup(&chars_of("念诗")), Some(Handler::Poem));
    assert_eq!(lookup(&chars_of("#tarot")), Some(Handler::Tarot));
}

#[test]
fn matching_is_exact_and_first_word_only() {
    assert_eq!(lookup(&chars_of("#HELP")), None);
    assert_eq!(lookup(&chars_of("#hel")), None);
    assert_eq!(lookup(&chars_of("#helpme")), None);
    assert_eq!(lookup(&chars_of("help")), None);
    assert_eq!(lookup(&chars_of("")), None);
    assert_eq!(dispatch(&split_words(&chars_of("please #help"))), None);
    assert_eq!(dispatch(&split_words(&chars_of("  #help  now"))), Some(Handler::Help));
    assert_eq!(dispatch(&split_words(&chars_of(""))), None);
    assert!(route(&direct("please #help"), &Event::Nothing).is_empty());
    assert!(route(&direct("#unknown"), &Event::Nothing).is_empty());
    assert!(route(&direct("#tarot"), &Event::Nothing).is_empty());
}

#[test]
fn help_lists_the_commands() {
    let replies = route(&direct("#h"), &Event::Nothing);
    assert_eq!(replies, vec![help()]);
    let text = help();
    assert!(text.starts_with("#help\n    显示本帮助\n#random #r #roll\n    掷骰子\n"));
    assert!(text.ends_with("#poem 念诗\n    念句诗"));
    assert_eq!(text.lines().count(), 20);
}

#[test]
fn plans_name_the_outside_work() {
    match plan(&direct("#cat")) {
        Action::Fetch(url) => assert_eq!(url, "https://api.thecatapi.com/v1/images/search"),
        _ => panic!("a fetch"),
    }
    match plan(&direct("狗狗图 now")) {
        Action::Fetch(url) => assert_eq!(url, "https://api.thedogapi.com/v1/images/search"),
        _ => panic!("a fetch"),
    }
    match plan(&direct("念诗")) {
        Action::Fetch(url) => assert_eq!(url, "https://v1.jinrishici.com/all.json"),
        _ => panic!("a fetch"),
    }
    assert!(matches!(plan(&direct("#sysinfo")), Action::ReadSystem));
    for word in ["#eat", "早餐", "#lunch", "晚餐吃什么", "宵夜"] {
        assert!(matches!(plan(&direct(word)), Action::LoadMenu), "{}", word);
    }
    for word in ["#help", "#r 1 2", "#tarot", "1+1", "hello", ""] {
        assert!(matches!(plan(&direct(word)), Action::Nothing), "{}", word);
    }
    assert_eq!(FETCH_TIMEOUT_SECONDS, 5);
}

#[test]
fn pictures_come_from_the_first_entry() {
    let body = r#"[{"id":"abc","url":"https://cdn.example/cat.jpg","width":10},{"url":"other"}]"#;
    assert_eq!(image_reply(body), Some("[CQ:image,file=https://cdn.example/cat.jpg]".to_string()));
    assert_eq!(
        route(&direct("#cat"), &Event::Body(body.to_string())),
        vec!["[CQ:image,file=https://cdn.example/cat.jpg]".to_string()]
    );
    assert_eq!(
        route(&direct("狗狗图"), &Event::Body(body.to_string())),
        vec!["[CQ:image,file=https://cdn.example/cat.jpg]".to_string()]
    );
}

#[test]
fn pictures_that_cannot_be_read_give_nothing() {
    for body in ["", "oops", "[]", "{}", r#"{"url":"x"}"#, r#"["x"]"#, r#"[{"url":5}]"#, r#"[{"id":1}]"#, "[[]]"] {
        assert_eq!(image_reply(body), None, "{}", body);
        assert!(route(&direct("#cat"), &Event::Body(body.to_string())).is_empty());
    }
    assert!(route(&direct("#cat"), &Event::Nothing).is_empty());
    assert!(route(&direct("#dog"), &Event::Menu(menu())).is_empty());
}

#[test]
fn verse_is_the_content() {
    let body = r#"{"content":"床前明月光","origin":"静夜思","author":"李白","category":"x"}"#;
    assert_eq!(poem_reply(body), Some("床前明月光".to_string()));
    assert_eq!(route(&direct("#poem"), &Event::Body(body.to_string())), vec!["床前明月光".to_string()]);
    for body in ["", "[]", "{}", r#"{"content":5}"#, r#"{"content":"x","n":1}"#, r#"{"origin":"y"}"#, "\"x\""] {
        assert_eq!(poem_reply(body), None, "{}", body);
    }
    assert!(route(&direct("#poem"), &Event::Nothing).is_empty());
}

#[test]
fn machine_report() {
    let snapshot = SystemSnapshot {
        name: "Linux".to_string(),
        kernel_version: "6.1.0".to_string(),
        os_version: "12".to_string(),
        used_memory: 3 * 1048576 + 5,
        total_memory: 16 * 1048576,
        used_swap: 1048575,
        total_swap: 0,
        core_loads: vec!["1.50%".to_string(), "0.00%".to_string(), "99.99%".to_string()],
    };
    let expected = "系统：Linux\n内核版本：6.1.0\n系统版本：12\n内存用量：3 MiB / 16 MiB\n交换用量：0 MiB / 0 MiB\n核心负载：1.50% 0.00% 99.99%";
    assert_eq!(system_report(&snapshot), expected);
    assert_eq!(route(&direct("#sysinfo"), &Event::System(snapshot)), vec![expected.to_string()]);
    assert!(route(&direct("#sysinfo"), &Event::Nothing).is_empty());
}

#[test]
fn machine_report_without_cores() {
    let snapshot = SystemSnapshot {
        name: String::new(),
        kernel_version: String::new(),
        os_version: String::new(),
        used_memory: u64::MAX,
        total_memory: 0,
        used_swap: 0,
        total_swap: 0,
        core_loads: vec![],
    };
    assert_eq!(
        system_report(&snapshot),
        "系统：\n内核版本：\n系统版本：\n内存用量：17592186044415 MiB / 0 MiB\n交换用量：0 MiB / 0 MiB\n核心负载："
    );
    let one = SystemSnapshot { core_loads: vec!["5.00%".to_string()], ..snapshot };
    assert!(system_report(&one).ends_with("核心负载：5.00%"));
}

#[test]
fn meals_come_from_the_menu() {
    for _ in 0..50 {
        let replies = route(&direct("早餐"), &Event::Menu(menu()));
        assert_eq!(replies.len(), 1);
        assert!(replies[0] == "早餐：豆浆" || replies[0] == "早餐：油条", "{}", replies[0]);
        assert_eq!(route(&direct("#lunch"), &Event::Menu(menu())), vec!["午餐：面".to_string()]);
        let replies = route(&direct("#dinner"), &Event::Menu(menu()));
        assert!(["晚餐：面", "晚餐：饭", "晚餐：粥"].contains(&replies[0].as_str()), "{}", replies[0]);
        assert_eq!(route(&direct("夜宵"), &Event::Menu(menu())), vec!["夜宵：西北风".to_string()]);
        let replies = route(&direct("#eat"), &Event::Menu(menu()));
        assert_eq!(replies.len(), 1);
        let lines: Vec<&str> = replies[0].split('\n').collect();
        assert_eq!(lines.len(), 4);
        assert!(lines[0] == "早餐：豆浆" || lines[0] == "早餐：油条");
        assert_eq!(lines[1], "午餐：面");
        assert!(["晚餐：面", "晚餐：饭", "晚餐：粥"].contains(&lines[2]));
        assert_eq!(lines[3], "夜宵：西北风");
    }
}

#[test]
fn meals_without_a_menu_give_nothing() {
    for word in ["#eat", "#breakfast", "午餐", "#dinner", "宵夜吃什么"] {
        assert!(route(&direct(word), &Event::Nothing).is_empty(), "{}", word);
        assert!(route(&direct(word), &Event::Body("{}".to_string())).is_empty(), "{}", word);
    }
}

#[test]
fn menu_methods_announce_a_dish() {
    let menu = menu();
    for _ in 0..30 {
        assert!(["早餐：豆浆", "早餐：油条"].contains(&menu.random_breakfast().as_str()));
        assert_eq!(menu.random_lunch(), "午餐：面");
        assert!(["晚餐：面", "晚餐：饭", "晚餐：粥"].contains(&menu.random_dinner().as_str()));
        assert_eq!(menu.random_midnight_snack(), "夜宵：西北风");
        assert!(menu.random().starts_with("早餐："));
        assert!(menu.random().ends_with("\n夜宵：西北风"));
    }
    let empty = Eat { breakfast: vec![], lunch: vec![], dinner: vec![], midnight_snack: vec![] };
    assert_eq!(empty.random(), "早餐：西北风\n午餐：西北风\n晚餐：西北风\n夜宵：西北风");
    assert_eq!(empty.random_dinner(), "晚餐：西北风");
}

#[test]
fn every_dish_can_come_up() {
    let menu = menu();
    let mut seen = std::collections::BTreeSet::new();
    for _ in 0..400 {
        seen.insert(menu.pick_dinner());
    }
    assert_eq!(seen.len(), 3);
}

#[test]
fn link_is_summarized() {
    let text = "[CQ:json,data={&quot;app&quot;:&quot;x&quot;&#44;&quot;meta&quot;:{&quot;detail_1&quot;:{&quot;desc&quot;:&quot;A &amp; B&quot;&#44;&quot;qqdocurl&quot;:&quot;https://example.com/?a=1&amp;b=2&quot;}}}]";
    let expected = "标题：A & B\n链接：https://example.com/?a=1&b=2";
    assert_eq!(link_stage(&chars_of(text)), Some(expected.to_string()));
    assert_eq!(route(&direct(text), &Event::Nothing), vec![expected.to_string()]);
}

#[test]
fn link_payload_is_what_the_wrapper_holds() {
    assert_eq!(payload_of(&chars_of("[CQ:json,data=abc]")).map(|p| string_of(&p)), Some("abc".to_string()));
    assert_eq!(payload_of(&chars_of("[CQ:json,data=]")).map(|p| string_of(&p)), Some(String::new()));
    assert_eq!(payload_of(&chars_of("[CQ:json,data=早]]")).map(|p| string_of(&p)), Some("早]".to_string()));
    assert!(payload_of(&chars_of("[CQ:json,data=")).is_none());
    assert!(payload_of(&chars_of("[CQ:json,data=abc")).is_none());
    assert!(payload_of(&chars_of(" [CQ:json,data=abc]")).is_none());
    assert!(payload_of(&chars_of("[CQ:image,file=abc]")).is_none());
    assert!(payload_of(&chars_of("")).is_none());
    assert!(payload_of(&chars_of("]")).is_none());
}

#[test]
fn links_that_cannot_be_read_give_nothing() {
    for text in [
        "[CQ:json,data=]",
        "[CQ:json,data=not json]",
        "[CQ:json,data=[1]]",
        "[CQ:json,data={}]",
        "[CQ:json,data={\"meta\":5}]",
        "[CQ:json,data={\"meta\":{\"detail_1\":[]}}]",
        "[CQ:json,data={\"meta\":{\"detail_1\":{\"desc\":\"t\"}}}]",
        "[CQ:json,data={\"meta\":{\"detail_1\":{\"qqdocurl\":\"u\"}}}]",
        "[CQ:json,data={\"meta\":{\"detail_1\":{\"qqdocurl\":1,\"desc\":\"t\"}}}]",
    ] {
        assert_eq!(link_stage(&chars_of(text)), None, "{}", text);
    }
    assert_eq!(
        link_stage(&chars_of("[CQ:json,data={\"meta\":{\"detail_1\":{\"qqdocurl\":\"u\",\"desc\":\"t\"}}}]")),
        Some("标题：t\n链接：u".to_string())
    );
}

#[test]
fn stages_add_up() {
    assert_eq!(
        route(&direct("#r 7 7\n2+2"), &Event::Nothing),
        vec!["[CQ:at,qq=42]4".to_string(), "[CQ:at,qq=42]掷出了7点！".to_string()]
    );
}

#[test]
fn same_draws_same_replies() {
    let message = direct("#r 1 6\n1+1\nx\n1/8");
    let draws = gather(&message, &Event::Nothing);
    assert_eq!(draws.values.len(), 4);
    assert!((1..=6).contains(&draws.dice));
    assert!(draws.dishes.is_empty());
    let first = compose(&message, &Event::Nothing, &draws);
    let second = compose(&message, &Event::Nothing, &draws);
    assert_eq!(first, second);
    assert_eq!(first.len(), 3);
    assert_eq!(first[0], "[CQ:at,qq=42]2");
    assert_eq!(first[1], "[CQ:at,qq=42]0.125");
    assert_eq!(first[2], format!("[CQ:at,qq=42]掷出了{}点！", draws.dice));
}

#[test]
fn compose_follows_the_draws() {
    let draws = Draws {
        values: vec![None, Some(number(2.5)), Some(number(f64::INFINITY))],
        dice: 3,
        dishes: vec!["馒头".to_string()],
    };
    assert_eq!(
        compose(&direct("#breakfast"), &Event::Menu(menu()), &draws),
        vec!["[CQ:at,qq=42]2.5".to_string(), "[CQ:at,qq=42]太大了自己算去".to_string(), "早餐：馒头".to_string()]
    );
    assert_eq!(
        compose(&direct("#r"), &Event::Nothing, &draws),
        vec![
            "[CQ:at,qq=42]2.5".to_string(),
            "[CQ:at,qq=42]太大了自己算去".to_string(),
            "[CQ:at,qq=42]掷出了3点！".to_string()
        ]
    );
    let four = Draws {
        values: vec![],
        dice: 0,
        dishes: vec!["a".to_string(), "b".to_string(), "c".to_string(), "d".to_string()],
    };
    assert_eq!(compose(&direct("#eat"), &Event::Menu(menu()), &four), vec!["早餐：a\n午餐：b\n晚餐：c\n夜宵：d".to_string()]);
    assert!(compose(&direct("#eat"), &Event::Menu(menu()), &draws).is_empty() == false);
    assert!(compose(&direct("#lunch"), &Event::Menu(menu()), &four).is_empty());
    assert!(compose(&direct("#eat"), &Event::Nothing, &four).is_empty());
}

#[test]
fn dice_announcement() {
    assert_eq!(dice_reply(7, -12), "[CQ:at,qq=7]掷出了-12点！");
    assert_eq!(dice_reply(u64::MAX, i32::MIN), "[CQ:at,qq=18446744073709551615]掷出了-2147483648点！");
}

#[test]
fn shapes_of_numbers() {
    assert!(matches!(classify(0f64.to_bits()), Shape::Whole(0)));
    assert!(matches!(classify((-0f64).to_bits()), Shape::Whole(0)));
    assert!(matches!(classify(1f64.to_bits()), Shape::Whole(1)));
    assert!(matches!(classify((-1f64).to_bits()), Shape::Whole(-1)));
    assert!(matches!(classify(0.5f64.to_bits()), Shape::Fractional));
    assert!(matches!(classify(1.5f64.to_bits()), Shape::Fractional));
    assert!(matches!(classify(f64::MIN_POSITIVE.to_bits()), Shape::Fractional));
    assert!(matches!(classify(5e-324f64.to_bits()), Shape::Fractional));
    assert!(matches!(classify(f64::NAN.to_bits()), Shape::Fractional));
    assert!(matches!(classify(f64::INFINITY.to_bits()), Shape::Infinite));
    assert!(matches!(classify(f64::NEG_INFINITY.to_bits()), Shape::Infinite));
    assert!(matches!(classify(f64::MAX.to_bits()), Shape::Whole(i128::MAX)));
    assert!(matches!(classify(f64::MIN.to_bits()), Shape::Whole(i128::MIN)));
    assert!(matches!(classify(4503599627370496f64.to_bits()), Shape::Whole(4503599627370496)));
    assert!(matches!(classify(4503599627370495.5f64.to_bits()), Shape::Fractional));
    assert!(matches!(classify(9007199254740992f64.to_bits()), Shape::Whole(9007199254740992)));
}

#[test]
fn shapes_agree_with_the_cast() {
    let mut samples: Vec<f64> = vec![
        0.0, -0.0, 1.0, -1.0, 2.0, 3.0, 0.1, 0.75, 1e15, 1e16, 1e22, 1e38, 1.7e38, 1.8e38, 1e39, 1e300, -1e38,
        -1.8e38, -1e300, 123456789.0, 123456789.5, 4294967296.0, 18446744073709551616.0,
        170141183460469231731687303715884105728.0, -170141183460469231731687303715884105728.0,
        85070591730234615865843651857942052864.0, 1e-10, 1e-310,
    ];
    let mut x = 1.0f64;
    for _ in 0..1100 {
        samples.push(x);
        samples.push(-x);
        samples.push(x * 1.5);
        samples.push(x + 1.0);
        samples.push(1.0 / x);
        x *= 2.0;
        if !x.is_finite() {
            break;
        }
    }
    for v in samples {
        let expected_whole = v.is_finite() && v.trunc() == v;
        match classify(v.to_bits()) {
            Shape::Infinite => assert!(v.is_infinite(), "{}", v),
            Shape::Whole(n) => {
                assert!(expected_whole, "{}", v);
                assert_eq!(n, v as i128, "{}", v);
            }
            Shape::Fractional => assert!(!expected_whole && !v.is_infinite(), "{}", v),
        }
    }
}

#[test]
fn numbers_are_shown() {
    assert_eq!(shown(2.0), "[CQ:at,qq=1]2");
    assert_eq!(shown(-3.0), "[CQ:at,qq=1]-3");
    assert_eq!(shown(-0.0), "[CQ:at,qq=1]0");
    assert_eq!(shown(0.1), "[CQ:at,qq=1]0.1");
    assert_eq!(shown(1e21), "[CQ:at,qq=1]1000000000000000000000");
    assert_eq!(shown(1e40), "[CQ:at,qq=1]170141183460469231731687303715884105727");
    assert_eq!(shown(-1e40), "[CQ:at,qq=1]-170141183460469231731687303715884105728");
    assert_eq!(shown(f64::INFINITY), "[CQ:at,qq=1]太大了自己算去");
    assert_eq!(shown(f64::NAN), "[CQ:at,qq=1]NaN");
}

#[test]
fn lines_are_evaluated_with_their_text() {
    let values = evaluate_lines(&chars_of("1/8\nnope\n2^10\n"));
    assert_eq!(values.len(), 3);
    let first = values[0].as_ref().unwrap();
    assert_eq!(first.bits, 0.125f64.to_bits());
    assert_eq!(first.text, "0.125");
    assert!(values[1].is_none());
    let third = values[2].as_ref().unwrap();
    assert_eq!(third.bits, 1024f64.to_bits());
    assert_eq!(third.text, "1024");
    assert_eq!(
        arithmetic_replies(9, &values),
        vec!["[CQ:at,qq=9]0.125".to_string(), "[CQ:at,qq=9]1024".to_string()]
    );
    assert!(evaluate_lines(&chars_of("")).is_empty());
}

#[test]
fn rolls_vary_over_the_whole_range() {
    let mut seen = std::collections::BTreeSet::new();
    for _ in 0..600 {
        let draws = gather(&direct("#roll 1 6"), &Event::Nothing);
        assert!((1..=6).contains(&draws.dice));
        seen.insert(draws.dice);
    }
    assert_eq!(seen.into_iter().collect::<Vec<i32>>(), vec![1, 2, 3, 4, 5, 6]);
    for _ in 0..50 {
        let draws = gather(&direct("#r"), &Event::Nothing);
        assert!((0..=100).contains(&draws.dice));
        let draws = gather(&direct("#r -3"), &Event::Nothing);
        assert_eq!(draws.dice, 0);
    }
}
