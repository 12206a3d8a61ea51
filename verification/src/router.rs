use crate::arithmetic::{
    arithmetic_replies,
    arithmetic_texts,
    evaluate_lines,
    faithfully_written,
    Evaluated,
};
use crate::command::{dice_range, dispatch, handler_for, range_of, Handler};
use crate::handlers::{
    dice_reply,
    dice_text,
    help,
    help_text,
    image_line,
    image_reply,
    poem_line,
    poem_reply,
    roll,
    system_report,
    system_text,
    SystemSnapshot,
};
use crate::link::{link_line, link_stage};
use crate::meals::{
    breakfast_line,
    breakfast_text,
    day_lines,
    day_text,
    dinner_line,
    dinner_text,
    lunch_line,
    lunch_text,
    midnight_snack_line,
    midnight_snack_text,
    served,
    Eat,
};
use crate::message::{IncomingMessage, MessageView};
use crate::text::{chars_of, lines, split_words, texts, views, words};
use vstd::prelude::*;

verus! {

/// Where the pictures of cats are listed.
pub open spec fn cat_endpoint() -> Seq<char> {
    "https://api.thecatapi.com/v1/images/search"@
}

/// Where the pictures of dogs are listed.
pub open spec fn dog_endpoint() -> Seq<char> {
    "https://api.thedogapi.com/v1/images/search"@
}

/// Where a verse is to be had.
pub open spec fn poem_endpoint() -> Seq<char> {
    "https://v1.jinrishici.com/all.json"@
}

/// The seconds that a service is given to answer.
pub const FETCH_TIMEOUT_SECONDS: u64 = 5;

/// The work outside the library that a handler needs before it can answer.
pub enum Action {
    /// Nothing.
    Nothing,
    /// The body of the response to a GET request to this address.
    Fetch(String),
    /// The menu.
    LoadMenu,
    /// The state of the machine.
    ReadSystem,
}

/// What came of an `Action`. `Nothing` stands for work that was not asked
/// for, that failed or that took too long.
pub enum Event {
    Nothing,
    Body(String),
    Menu(Eat),
    System(SystemSnapshot),
}

pub open spec fn action_view(action: Action) -> Option<Seq<char>> {
    match action {
        Action::Fetch(url) => Some(url@),
        _ => None,
    }
}

/// The outside work that a handler needs.
pub open spec fn needs(handler: Option<Handler>, action: Action) -> bool {
    match handler {
        Some(Handler::Cat) => action is Fetch && action_view(action) == Some(cat_endpoint()),
        Some(Handler::Dog) => action is Fetch && action_view(action) == Some(dog_endpoint()),
        Some(Handler::Poem) => action is Fetch && action_view(action) == Some(poem_endpoint()),
        Some(Handler::SysInfo) => action is ReadSystem,
        Some(Handler::Eat) | Some(Handler::Breakfast) | Some(Handler::Lunch) | Some(
            Handler::Dinner,
        ) | Some(Handler::MidnightSnack) => action is LoadMenu,
        _ => action is Nothing,
    }
}

/// The outside work to do for a message before it is routed.
pub fn plan(message: &IncomingMessage) -> (action: Action)
    ensures
        needs(handler_for(words(message@.text)), action),
{
    let text = chars_of(message.msg.as_str());
    let parts = split_words(&text);
    match dispatch(&parts) {
        Some(Handler::Cat) => Action::Fetch(
            String::from_str("https://api.thecatapi.com/v1/images/search"),
        ),
        Some(Handler::Dog) => Action::Fetch(
            String::from_str("https://api.thedogapi.com/v1/images/search"),
        ),
        Some(Handler::Poem) => Action::Fetch(String::from_str("https://v1.jinrishici.com/all.json")),
        Some(Handler::SysInfo) => Action::ReadSystem,
        Some(Handler::Eat) => Action::LoadMenu,
        Some(Handler::Breakfast) => Action::LoadMenu,
        Some(Handler::Lunch) => Action::LoadMenu,
        Some(Handler::Dinner) => Action::LoadMenu,
        Some(Handler::MidnightSnack) => Action::LoadMenu,
        _ => Action::Nothing,
    }
}

/// What was left to chance, or to the evaluator, while a message was routed:
/// the value of each of its lines, the roll of the dice, and the dishes
/// picked from the menu.
pub struct Draws {
    pub values: Vec<Option<Evaluated>>,
    pub dice: i32,
    pub dishes: Vec<String>,
}

/// What the handler says, given the outcome of its outside work and what
/// was drawn: nothing from a handler whose work came to nothing.
pub open spec fn command_texts(
    sender: u64,
    handler: Option<Handler>,
    event: Event,
    dice: int,
    dishes: Seq<String>,
) -> Seq<Seq<char>> {
    match handler {
        Some(Handler::Help) => seq![help_text()],
        Some(Handler::Random) => seq![dice_text(sender, dice)],
        Some(Handler::Cat) | Some(Handler::Dog) => match event {
            Event::Body(body) => match image_line(body@) {
                Some(line) => seq![line],
                None => Seq::empty(),
            },
            _ => Seq::empty(),
        },
        Some(Handler::Poem) => match event {
            Event::Body(body) => match poem_line(body@) {
                Some(line) => seq![line],
                None => Seq::empty(),
            },
            _ => Seq::empty(),
        },
        Some(Handler::SysInfo) => match event {
            Event::System(snapshot) => seq![system_text(snapshot)],
            _ => Seq::empty(),
        },
        Some(Handler::Eat) => if event is Menu && dishes.len() == 4 {
            seq![day_text(dishes[0]@, dishes[1]@, dishes[2]@, dishes[3]@)]
        } else {
            Seq::empty()
        },
        Some(Handler::Breakfast) => if event is Menu && dishes.len() == 1 {
            seq![breakfast_text(dishes[0]@)]
        } else {
            Seq::empty()
        },
        Some(Handler::Lunch) => if event is Menu && dishes.len() == 1 {
            seq![lunch_text(dishes[0]@)]
        } else {
            Seq::empty()
        },
        Some(Handler::Dinner) => if event is Menu && dishes.len() == 1 {
            seq![dinner_text(dishes[0]@)]
        } else {
            Seq::empty()
        },
        Some(Handler::MidnightSnack) => if event is Menu && dishes.len() == 1 {
            seq![midnight_snack_text(dishes[0]@)]
        } else {
            Seq::empty()
        },
        Some(Handler::Tarot) | None => Seq::empty(),
    }
}

pub open spec fn link_texts(text: Seq<char>) -> Seq<Seq<char>> {
    match link_line(text) {
        Some(line) => seq![line],
        None => Seq::empty(),
    }
}

/// The replies to a message: what the link stage says, then one reply for
/// each line that is an expression, then what the handler says that the
/// first word reaches.
pub open spec fn routed(message: MessageView, event: Event, draws: Draws) -> Seq<Seq<char>> {
    link_texts(message.text) + arithmetic_texts(message.sender, draws.values@) + command_texts(
        message.sender,
        handler_for(words(message.text)),
        event,
        draws.dice as int,
        draws.dishes@,
    )
}

/// Whether the dishes are a fair pick from the menu for the handler.
pub open spec fn fairly_picked(handler: Option<Handler>, event: Event, dishes: Seq<String>) -> bool {
    match event {
        Event::Menu(menu) => match handler {
            Some(Handler::Eat) => dishes.len() == 4 && served(menu.breakfast@, dishes[0]@)
                && served(menu.lunch@, dishes[1]@) && served(menu.dinner_options(), dishes[2]@)
                && served(menu.midnight_snack@, dishes[3]@),
            Some(Handler::Breakfast) => dishes.len() == 1 && served(menu.breakfast@, dishes[0]@),
            Some(Handler::Lunch) => dishes.len() == 1 && served(menu.lunch@, dishes[0]@),
            Some(Handler::Dinner) => dishes.len() == 1 && served(
                menu.dinner_options(),
                dishes[0]@,
            ),
            Some(Handler::MidnightSnack) => dishes.len() == 1 && served(
                menu.midnight_snack@,
                dishes[0]@,
            ),
            _ => dishes.len() == 0,
        },
        _ => dishes.len() == 0,
    }
}

/// Whether `draws` can come up for the message: one value for each line,
/// each written as its number is; the dice within the range that the
/// message asks for, where it asks for a roll; and the dishes picked from
/// the menu.
pub open spec fn admissible(message: MessageView, event: Event, draws: Draws) -> bool {
    let handler = handler_for(words(message.text));
    &&& draws.values@.len() == lines(message.text).len()
    &&& faithfully_written(draws.values@)
    &&& handler == Some(Handler::Random) ==> dice_range(words(message.text)).0 <= draws.dice
        <= dice_range(words(message.text)).1
    &&& fairly_picked(handler, event, draws.dishes@)
}

fn pick_dishes(handler: Option<Handler>, event: &Event) -> (dishes: Vec<String>)
    ensures
        fairly_picked(handler, *event, dishes@),
{
    let mut dishes: Vec<String> = Vec::new();
    match event {
        Event::Menu(menu) => match handler {
            Some(Handler::Eat) => {
                dishes.push(menu.pick_breakfast());
                dishes.push(menu.pick_lunch());
                dishes.push(menu.pick_dinner());
                dishes.push(menu.pick_midnight_snack());
            },
            Some(Handler::Breakfast) => {
                dishes.push(menu.pick_breakfast());
            },
            Some(Handler::Lunch) => {
                dishes.push(menu.pick_lunch());
            },
            Some(Handler::Dinner) => {
                dishes.push(menu.pick_dinner());
            },
            Some(Handler::MidnightSnack) => {
                dishes.push(menu.pick_midnight_snack());
            },
            _ => {},
        },
        _ => {},
    }
    dishes
}

/// Draws what routing a message leaves open: evaluates its lines, rolls the
/// dice and picks the dishes.
pub fn gather(message: &IncomingMessage, event: &Event) -> (draws: Draws)
    ensures
        admissible(message@, *event, draws),
{
    let text = chars_of(message.msg.as_str());
    let values = evaluate_lines(&text);
    let parts = split_words(&text);
    let handler = dispatch(&parts);
    let dice = match handler {
        Some(Handler::Random) => {
            let range = range_of(&parts);
            roll(range.0, range.1)
        },
        _ => 0,
    };
    let dishes = pick_dishes(handler, event);
    Draws { values, dice, dishes }
}

fn command_replies(
    sender: u64,
    handler: Option<Handler>,
    event: &Event,
    dice: i32,
    dishes: &Vec<String>,
) -> (replies: Vec<String>)
    ensures
        views(replies@) == command_texts(sender, handler, *event, dice as int, dishes@),
{
    let mut out: Vec<String> = Vec::new();
    match handler {
        Some(Handler::Help) => {
            out.push(help());
        },
        Some(Handler::Random) => {
            out.push(dice_reply(sender, dice));
        },
        Some(Handler::Cat) | Some(Handler::Dog) => match event {
            Event::Body(body) => match image_reply(body.as_str()) {
                Some(line) => {
                    out.push(line);
                },
                None => {},
            },
            _ => {},
        },
        Some(Handler::Poem) => match event {
            Event::Body(body) => match poem_reply(body.as_str()) {
                Some(line) => {
                    out.push(line);
                },
                None => {},
            },
            _ => {},
        },
        Some(Handler::SysInfo) => match event {
            Event::System(snapshot) => {
                out.push(system_report(snapshot));
            },
            _ => {},
        },
        Some(Handler::Eat) => match event {
            Event::Menu(_) => {
                if dishes.len() == 4 {
                    out.push(
                        day_lines(
                            dishes[0].as_str(),
                            dishes[1].as_str(),
                            dishes[2].as_str(),
                            dishes[3].as_str(),
                        ),
                    );
                }
            },
            _ => {},
        },
        Some(Handler::Breakfast) => match event {
            Event::Menu(_) => {
                if dishes.len() == 1 {
                    out.push(breakfast_line(dishes[0].as_str()));
                }
            },
            _ => {},
        },
        Some(Handler::Lunch) => match event {
            Event::Menu(_) => {
                if dishes.len() == 1 {
                    out.push(lunch_line(dishes[0].as_str()));
                }
            },
            _ => {},
        },
        Some(Handler::Dinner) => match event {
            Event::Menu(_) => {
                if dishes.len() == 1 {
                    out.push(dinner_line(dishes[0].as_str()));
                }
            },
            _ => {},
        },
        Some(Handler::MidnightSnack) => match event {
            Event::Menu(_) => {
                if dishes.len() == 1 {
                    out.push(midnight_snack_line(dishes[0].as_str()));
                }
            },
            _ => {},
        },
        Some(Handler::Tarot) => {},
        None => {},
    }
    assert(views(out@) =~= command_texts(sender, handler, *event, dice as int, dishes@));
    out
}

/// Appends `more` to `out`.
fn append(out: &mut Vec<String>, more: Vec<String>)
    ensures
        views(final(out)@) == views(old(out)@) + views(more@),
{
    let mut i: usize = 0;
    assert(views(out@) =~= views(old(out)@) + views(more@.take(0)));
    while i < more.len()
        invariant
            i <= more.len(),
            views(out@) == views(old(out)@) + views(more@.take(i as int)),
        decreases more.len() - i,
    {
        let ghost before = views(out@);
        let item = more[i].clone();
        out.push(item);
        assert(views(out@) =~= before.push(more@[i as int]@));
        assert(views(more@.take(i + 1)) =~= views(more@.take(i as int)).push(more@[i as int]@));
        assert(views(out@) =~= views(old(out)@) + views(more@.take(i + 1)));
        i += 1;
    }
    assert(more@.take(more@.len() as int) =~= more@);
}

/// The replies to a message, given the outcome of its outside work and what
/// was drawn for it.
pub fn compose(message: &IncomingMessage, event: &Event, draws: &Draws) -> (replies: Vec<String>)
    ensures
        views(replies@) == routed(message@, *event, *draws),
{
    let text = chars_of(message.msg.as_str());
    let mut out: Vec<String> = Vec::new();
    match link_stage(&text) {
        Some(line) => {
            out.push(line);
        },
        None => {},
    }
    assert(views(out@) =~= link_texts(message@.text));
    append(&mut out, arithmetic_replies(message.sender, &draws.values));
    let parts = split_words(&text);
    let handler = dispatch(&parts);
    append(&mut out, command_replies(message.sender, handler, event, draws.dice, &draws.dishes));
    out
}

/// The replies to a message, given the outcome of its outside work: what
/// `compose` makes of the message with some admissible draws.
pub fn route(message: &IncomingMessage, event: &Event) -> (replies: Vec<String>)
    ensures
        exists|draws: Draws| #[trigger]
            admissible(message@, *event, draws) && views(replies@) == routed(
                message@,
                *event,
                draws,
            ),
{
    let draws = gather(message, event);
    let replies = compose(message, event, &draws);
    assert(admissible(message@, *event, draws) && views(replies@) == routed(
        message@,
        *event,
        draws,
    ));
    replies
}

/// Routing is repeatable: the same message with the same outcome of its
/// outside work and the same draws gets the same replies.
pub proof fn lemma_routing_is_repeatable(
    first: IncomingMessage,
    second: IncomingMessage,
    event: Event,
    draws: Draws,
)
    requires
        first@ == second@,
    ensures
        routed(first@, event, draws) == routed(second@, event, draws),
{
}

/// An empty message gets no reply at all.
pub proof fn lemma_empty_message_is_silent(message: MessageView, event: Event, draws: Draws)
    requires
        message.text.len() == 0,
        admissible(message, event, draws),
    ensures
        routed(message, event, draws) == Seq::<Seq<char>>::empty(),
{
    reveal_strlit("[CQ:json,data=");
    assert(message.text =~= Seq::<char>::empty());
    assert(draws.values@ =~= Seq::<Option<Evaluated>>::empty());
    assert(routed(message, event, draws) =~= Seq::<Seq<char>>::empty());
}

/// A message whose first word is no trigger gets nothing from the command
/// table, and neither does a message without words.
pub proof fn lemma_unknown_command_is_silent(
    message: MessageView,
    event: Event,
    dice: int,
    dishes: Seq<String>,
)
    requires
        handler_for(words(message.text)) is None,
    ensures
        command_texts(message.sender, handler_for(words(message.text)), event, dice, dishes)
            == Seq::<Seq<char>>::empty(),
{
}

/// A handler whose outside work came to nothing says nothing.
pub proof fn lemma_failed_work_is_silent(
    sender: u64,
    handler: Handler,
    dice: int,
    dishes: Seq<String>,
)
    requires
        !needs(Some(handler), Action::Nothing),
    ensures
        command_texts(sender, Some(handler), Event::Nothing, dice, dishes)
            == Seq::<Seq<char>>::empty(),
{
}

} // verus!
