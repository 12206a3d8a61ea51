use crate::text::{push_str, string_of};
use rand::seq::SliceRandom;
use vstd::prelude::*;

verus! {

/// The menu: what there is to eat at each meal of the day.
pub struct Eat {
    pub breakfast: Vec<String>,
    pub lunch: Vec<String>,
    pub dinner: Vec<String>,
    pub midnight_snack: Vec<String>,
}

/// What is served where nothing is on the list.
pub open spec fn nothing_to_eat() -> Seq<char> {
    "西北风"@
}

/// Whether `dish` can be served from `options`: it is one of them, or, of
/// an empty list, the fixed stand-in.
pub open spec fn served(options: Seq<String>, dish: Seq<char>) -> bool {
    if options.len() == 0 {
        dish == nothing_to_eat()
    } else {
        exists|i: int| 0 <= i < options.len() && (#[trigger] options[i])@ == dish
    }
}

/// `rand::seq::SliceRandom::choose` on the thread-local generator: a copy of
/// one of the options, or nothing where there is none to choose from.
#[verifier::external_body]
fn choose_dish(options: &Vec<String>) -> (choice: Option<String>)
    ensures
        match choice {
            Some(dish) => exists|i: int|
                0 <= i < options@.len() && (#[trigger] options@[i])@ == dish@,
            None => options@.len() == 0,
        },
{
    options.choose(&mut rand::thread_rng()).cloned()
}

/// Picks a dish from `options`.
pub fn pick(options: &Vec<String>) -> (dish: String)
    ensures
        served(options@, dish@),
{
    match choose_dish(options) {
        Some(dish) => dish,
        None => String::from_str("西北风"),
    }
}

/// A dish announced under the name of its meal.
pub open spec fn breakfast_text(dish: Seq<char>) -> Seq<char> {
    "早餐："@ + dish
}

pub open spec fn lunch_text(dish: Seq<char>) -> Seq<char> {
    "午餐："@ + dish
}

pub open spec fn dinner_text(dish: Seq<char>) -> Seq<char> {
    "晚餐："@ + dish
}

pub open spec fn midnight_snack_text(dish: Seq<char>) -> Seq<char> {
    "夜宵："@ + dish
}

/// The four meals of a day, one to a line.
pub open spec fn day_text(
    breakfast: Seq<char>,
    lunch: Seq<char>,
    dinner: Seq<char>,
    midnight_snack: Seq<char>,
) -> Seq<char> {
    breakfast_text(breakfast) + "\n"@ + lunch_text(lunch) + "\n"@ + dinner_text(dinner) + "\n"@
        + midnight_snack_text(midnight_snack)
}

fn labelled(label: &str, dish: &str) -> (line: String)
    ensures
        line@ == label@ + dish@,
{
    let mut out: Vec<char> = Vec::new();
    push_str(&mut out, label);
    push_str(&mut out, dish);
    assert(out@ =~= label@ + dish@);
    string_of(&out)
}

pub fn breakfast_line(dish: &str) -> (line: String)
    ensures
        line@ == breakfast_text(dish@),
{
    labelled("早餐：", dish)
}

pub fn lunch_line(dish: &str) -> (line: String)
    ensures
        line@ == lunch_text(dish@),
{
    labelled("午餐：", dish)
}

pub fn dinner_line(dish: &str) -> (line: String)
    ensures
        line@ == dinner_text(dish@),
{
    labelled("晚餐：", dish)
}

pub fn midnight_snack_line(dish: &str) -> (line: String)
    ensures
        line@ == midnight_snack_text(dish@),
{
    labelled("夜宵：", dish)
}

pub fn day_lines(breakfast: &str, lunch: &str, dinner: &str, midnight_snack: &str) -> (text: String)
    ensures
        text@ == day_text(breakfast@, lunch@, dinner@, midnight_snack@),
{
    let mut out: Vec<char> = Vec::new();
    push_str(&mut out, "早餐：");
    push_str(&mut out, breakfast);
    push_str(&mut out, "\n");
    push_str(&mut out, "午餐：");
    push_str(&mut out, lunch);
    push_str(&mut out, "\n");
    push_str(&mut out, "晚餐：");
    push_str(&mut out, dinner);
    push_str(&mut out, "\n");
    push_str(&mut out, "夜宵：");
    push_str(&mut out, midnight_snack);
    assert(out@ =~= day_text(breakfast@, lunch@, dinner@, midnight_snack@));
    string_of(&out)
}

impl Eat {
    /// What can be had for dinner: anything from the lunch list or from the
    /// dinner list.
    pub open spec fn dinner_options(&self) -> Seq<String> {
        self.lunch@ + self.dinner@
    }

    pub fn pick_breakfast(&self) -> (dish: String)
        ensures
            served(self.breakfast@, dish@),
    {
        pick(&self.breakfast)
    }

    pub fn pick_lunch(&self) -> (dish: String)
        ensures
            served(self.lunch@, dish@),
    {
        pick(&self.lunch)
    }

    pub fn pick_dinner(&self) -> (dish: String)
        ensures
            served(self.dinner_options(), dish@),
    {
        let mut both: Vec<String> = Vec::new();
        let mut i: usize = 0;
        while i < self.lunch.len()
            invariant
                i <= self.lunch.len(),
                both@ == self.lunch@.take(i as int),
            decreases self.lunch.len() - i,
        {
            both.push(self.lunch[i].clone());
            assert(self.lunch@.take(i + 1) =~= self.lunch@.take(i as int).push(
                self.lunch@[i as int],
            ));
            i += 1;
        }
        assert(self.lunch@.take(self.lunch@.len() as int) =~= self.lunch@);
        let mut j: usize = 0;
        while j < self.dinner.len()
            invariant
                j <= self.dinner.len(),
                both@ == self.lunch@ + self.dinner@.take(j as int),
            decreases self.dinner.len() - j,
        {
            both.push(self.dinner[j].clone());
            assert(self.lunch@ + self.dinner@.take(j + 1) =~= (self.lunch@ + self.dinner@.take(
                j as int,
            )).push(self.dinner@[j as int]));
            j += 1;
        }
        assert(self.dinner@.take(self.dinner@.len() as int) =~= self.dinner@);
        pick(&both)
    }

    pub fn pick_midnight_snack(&self) -> (dish: String)
        ensures
            served(self.midnight_snack@, dish@),
    {
        pick(&self.midnight_snack)
    }

    /// Suggests a breakfast.
    pub fn random_breakfast(&self) -> (line: String)
        ensures
            exists|dish: Seq<char>|
                served(self.breakfast@, dish) && line@ == #[trigger] breakfast_text(dish),
    {
        let dish = self.pick_breakfast();
        breakfast_line(dish.as_str())
    }

    /// Suggests a lunch.
    pub fn random_lunch(&self) -> (line: String)
        ensures
            exists|dish: Seq<char>|
                served(self.lunch@, dish) && line@ == #[trigger] lunch_text(dish),
    {
        let dish = self.pick_lunch();
        lunch_line(dish.as_str())
    }

    /// Suggests a dinner.
    pub fn random_dinner(&self) -> (line: String)
        ensures
            exists|dish: Seq<char>|
                served(self.dinner_options(), dish) && line@ == #[trigger] dinner_text(dish),
    {
        let dish = self.pick_dinner();
        dinner_line(dish.as_str())
    }

    /// Suggests a midnight snack.
    pub fn random_midnight_snack(&self) -> (line: String)
        ensures
            exists|dish: Seq<char>|
                served(self.midnight_snack@, dish) && line@ == #[trigger] midnight_snack_text(
                    dish,
                ),
    {
        let dish = self.pick_midnight_snack();
        midnight_snack_line(dish.as_str())
    }

    /// Suggests all four meals of a day.
    pub fn random(&self) -> (text: String)
        ensures
            exists|b: Seq<char>, l: Seq<char>, d: Seq<char>, s: Seq<char>|
                served(self.breakfast@, b) && served(self.lunch@, l) && served(
                    self.dinner_options(),
                    d,
                ) && served(self.midnight_snack@, s) && text@ == #[trigger] day_text(b, l, d, s),
    {
        let b = self.pick_breakfast();
        let l = self.pick_lunch();
        let d = self.pick_dinner();
        let s = self.pick_midnight_snack();
        day_lines(b.as_str(), l.as_str(), d.as_str(), s.as_str())
    }
}

} // verus!
