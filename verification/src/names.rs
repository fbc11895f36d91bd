//! Names and colours for new agents, and folder names made from titles.

use vstd::prelude::*;
use crate::model::{lemma_models_push, Model};
use crate::text::{same_text, to_chars};

verus! {

/// A given name in Chinese and in English, with its gender.
#[derive(Clone, Debug, PartialEq, Eq)]
pub struct EnglishName {
    pub zh: String,
    pub en: String,
    /// `男` or `女`.
    pub gender: String,
}

pub struct EnglishNameModel {
    pub zh: Seq<char>,
    pub en: Seq<char>,
    pub gender: Seq<char>,
}

impl Model for EnglishName {
    type M = EnglishNameModel;

    open spec fn model(&self) -> EnglishNameModel {
        EnglishNameModel { zh: self.zh@, en: self.en@, gender: self.gender@ }
    }
}

/// A request for a random name.
#[derive(Clone, Debug, PartialEq, Eq)]
pub struct RandomNameRequest {
    /// `男` or `女`; any gender where it is absent.
    pub gender: Option<String>,
}

pub open spec fn english_name(zh: Seq<char>, en: Seq<char>, gender: Seq<char>) -> EnglishNameModel {
    EnglishNameModel { zh, en, gender }
}

/// How many names are on offer.
pub const NAME_COUNT: usize = 58;

/// The name at place `i` of the list: the male names come first.
pub open spec fn name_at(i: int) -> EnglishNameModel {
    if i == 0 {
        english_name("奥利佛"@, "Oliver"@, "男"@)
    }     else if i == 1 {
        english_name("詹姆斯"@, "James"@, "男"@)
    }     else if i == 2 {
        english_name("威廉"@, "William"@, "男"@)
    }     else if i == 3 {
        english_name("本杰明"@, "Benjamin"@, "男"@)
    }     else if i == 4 {
        english_name("卢卡斯"@, "Lucas"@, "男"@)
    }     else if i == 5 {
        english_name("亨利"@, "Henry"@, "男"@)
    }     else if i == 6 {
        english_name("亚历山大"@, "Alexander"@, "男"@)
    }     else if i == 7 {
        english_name("伊森"@, "Ethan"@, "男"@)
    }     else if i == 8 {
        english_name("丹尼尔"@, "Daniel"@, "男"@)
    }     else if i == 9 {
        english_name("马修"@, "Matthew"@, "男"@)
    }     else if i == 10 {
        english_name("约瑟夫"@, "Joseph"@, "男"@)
    }     else if i == 11 {
        english_name("大卫"@, "David"@, "男"@)
    }     else if i == 12 {
        english_name("塞缪尔"@, "Samuel"@, "男"@)
    }     else if i == 13 {
        english_name("瑞安"@, "Ryan"@, "男"@)
    }     else if i == 14 {
        english_name("内森"@, "Nathan"@, "男"@)
    }     else if i == 15 {
        english_name("克里斯托弗"@, "Christopher"@, "男"@)
    }     else if i == 16 {
        english_name("安德鲁"@, "Andrew"@, "男"@)
    }     else if i == 17 {
        english_name("约书亚"@, "Joshua"@, "男"@)
    }     else if i == 18 {
        english_name("杰克"@, "Jack"@, "男"@)
    }     else if i == 19 {
        english_name("托马斯"@, "Thomas"@, "男"@)
    }     else if i == 20 {
        english_name("查尔斯"@, "Charles"@, "男"@)
    }     else if i == 21 {
        english_name("康纳"@, "Connor"@, "男"@)
    }     else if i == 22 {
        english_name("塞巴斯蒂安"@, "Sebastian"@, "男"@)
    }     else if i == 23 {
        english_name("亚当"@, "Adam"@, "男"@)
    }     else if i == 24 {
        english_name("朱利安"@, "Julian"@, "男"@)
    }     else if i == 25 {
        english_name("加布里埃尔"@, "Gabriel"@, "男"@)
    }     else if i == 26 {
        english_name("迪伦"@, "Dylan"@, "男"@)
    }     else if i == 27 {
        english_name("卢克"@, "Luke"@, "男"@)
    }     else if i == 28 {
        english_name("索菲亚"@, "Sophia"@, "女"@)
    }     else if i == 29 {
        english_name("艾玛"@, "Emma"@, "女"@)
    }     else if i == 30 {
        english_name("奥利维娅"@, "Olivia"@, "女"@)
    }     else if i == 31 {
        english_name("伊莎贝拉"@, "Isabella"@, "女"@)
    }     else if i == 32 {
        english_name("艾娃"@, "Ava"@, "女"@)
    }     else if i == 33 {
        english_name("米娅"@, "Mia"@, "女"@)
    }     else if i == 34 {
        english_name("夏洛特"@, "Charlotte"@, "女"@)
    }     else if i == 35 {
        english_name("阿米莉亚"@, "Amelia"@, "女"@)
    }     else if i == 36 {
        english_name("哈珀"@, "Harper"@, "女"@)
    }     else if i == 37 {
        english_name("伊芙琳"@, "Evelyn"@, "女"@)
    }     else if i == 38 {
        english_name("索菲"@, "Sophie"@, "女"@)
    }     else if i == 39 {
        english_name("格蕾丝"@, "Grace"@, "女"@)
    }     else if i == 40 {
        english_name("克洛伊"@, "Chloe"@, "女"@)
    }     else if i == 41 {
        english_name("维多利亚"@, "Victoria"@, "女"@)
    }     else if i == 42 {
        english_name("莱利"@, "Riley"@, "女"@)
    }     else if i == 43 {
        english_name("阿里亚"@, "Aria"@, "女"@)
    }     else if i == 44 {
        english_name("莉莉"@, "Lily"@, "女"@)
    }     else if i == 45 {
        english_name("奥罗拉"@, "Aurora"@, "女"@)
    }     else if i == 46 {
        english_name("佐伊"@, "Zoey"@, "女"@)
    }     else if i == 47 {
        english_name("佩内洛普"@, "Penelope"@, "女"@)
    }     else if i == 48 {
        english_name("莱拉"@, "Layla"@, "女"@)
    }     else if i == 49 {
        english_name("斯嘉丽"@, "Scarlett"@, "女"@)
    }     else if i == 50 {
        english_name("塞奇"@, "Sage"@, "女"@)
    }     else if i == 51 {
        english_name("维奥莱特"@, "Violet"@, "女"@)
    }     else if i == 52 {
        english_name("鲁比"@, "Ruby"@, "女"@)
    }     else if i == 53 {
        english_name("弗洛拉"@, "Flora"@, "女"@)
    }     else if i == 54 {
        english_name("珀尔"@, "Pearl"@, "女"@)
    }     else if i == 55 {
        english_name("艾瑞斯"@, "Iris"@, "女"@)
    }     else if i == 56 {
        english_name("杰德"@, "Jade"@, "女"@)
    } else {
        english_name("锡达"@, "Cedar"@, "女"@)
    }
}

/// The names on offer.
pub open spec fn english_names() -> Seq<EnglishNameModel> {
    Seq::new(NAME_COUNT as nat, |i: int| name_at(i))
}

fn make_name(zh: &str, en: &str, gender: &str) -> (r: EnglishName)
    ensures
        r.model() == english_name(zh@, en@, gender@),
{
    EnglishName { zh: zh.to_owned(), en: en.to_owned(), gender: gender.to_owned() }
}

fn nth_name(i: usize) -> (r: EnglishName)
    ensures
        r.model() == name_at(i as int),
{
    if i == 0 {
        make_name("奥利佛", "Oliver", "男")
    }     else if i == 1 {
        make_name("詹姆斯", "James", "男")
    }     else if i == 2 {
        make_name("威廉", "William", "男")
    }     else if i == 3 {
        make_name("本杰明", "Benjamin", "男")
    }     else if i == 4 {
        make_name("卢卡斯", "Lucas", "男")
    }     else if i == 5 {
        make_name("亨利", "Henry", "男")
    }     else if i == 6 {
        make_name("亚历山大", "Alexander", "男")
    }     else if i == 7 {
        make_name("伊森", "Ethan", "男")
    }     else if i == 8 {
        make_name("丹尼尔", "Daniel", "男")
    }     else if i == 9 {
        make_name("马修", "Matthew", "男")
    }     else if i == 10 {
        make_name("约瑟夫", "Joseph", "男")
    }     else if i == 11 {
        make_name("大卫", "David", "男")
    }     else if i == 12 {
        make_name("塞缪尔", "Samuel", "男")
    }     else if i == 13 {
        make_name("瑞安", "Ryan", "男")
    }     else if i == 14 {
        make_name("内森", "Nathan", "男")
    }     else if i == 15 {
        make_name("克里斯托弗", "Christopher", "男")
    }     else if i == 16 {
        make_name("安德鲁", "Andrew", "男")
    }     else if i == 17 {
        make_name("约书亚", "Joshua", "男")
    }     else if i == 18 {
        make_name("杰克", "Jack", "男")
    }     else if i == 19 {
        make_name("托马斯", "Thomas", "男")
    }     else if i == 20 {
        make_name("查尔斯", "Charles", "男")
    }     else if i == 21 {
        make_name("康纳", "Connor", "男")
    }     else if i == 22 {
        make_name("塞巴斯蒂安", "Sebastian", "男")
    }     else if i == 23 {
        make_name("亚当", "Adam", "男")
    }     else if i == 24 {
        make_name("朱利安", "Julian", "男")
    }     else if i == 25 {
        make_name("加布里埃尔", "Gabriel", "男")
    }     else if i == 26 {
        make_name("迪伦", "Dylan", "男")
    }     else if i == 27 {
        make_name("卢克", "Luke", "男")
    }     else if i == 28 {
        make_name("索菲亚", "Sophia", "女")
    }     else if i == 29 {
        make_name("艾玛", "Emma", "女")
    }     else if i == 30 {
        make_name("奥利维娅", "Olivia", "女")
    }     else if i == 31 {
        make_name("伊莎贝拉", "Isabella", "女")
    }     else if i == 32 {
        make_name("艾娃", "Ava", "女")
    }     else if i == 33 {
        make_name("米娅", "Mia", "女")
    }     else if i == 34 {
        make_name("夏洛特", "Charlotte", "女")
    }     else if i == 35 {
        make_name("阿米莉亚", "Amelia", "女")
    }     else if i == 36 {
        make_name("哈珀", "Harper", "女")
    }     else if i == 37 {
        make_name("伊芙琳", "Evelyn", "女")
    }     else if i == 38 {
        make_name("索菲", "Sophie", "女")
    }     else if i == 39 {
        make_name("格蕾丝", "Grace", "女")
    }     else if i == 40 {
        make_name("克洛伊", "Chloe", "女")
    }     else if i == 41 {
        make_name("维多利亚", "Victoria", "女")
    }     else if i == 42 {
        make_name("莱利", "Riley", "女")
    }     else if i == 43 {
        make_name("阿里亚", "Aria", "女")
    }     else if i == 44 {
        make_name("莉莉", "Lily", "女")
    }     else if i == 45 {
        make_name("奥罗拉", "Aurora", "女")
    }     else if i == 46 {
        make_name("佐伊", "Zoey", "女")
    }     else if i == 47 {
        make_name("佩内洛普", "Penelope", "女")
    }     else if i == 48 {
        make_name("莱拉", "Layla", "女")
    }     else if i == 49 {
        make_name("斯嘉丽", "Scarlett", "女")
    }     else if i == 50 {
        make_name("塞奇", "Sage", "女")
    }     else if i == 51 {
        make_name("维奥莱特", "Violet", "女")
    }     else if i == 52 {
        make_name("鲁比", "Ruby", "女")
    }     else if i == 53 {
        make_name("弗洛拉", "Flora", "女")
    }     else if i == 54 {
        make_name("珀尔", "Pearl", "女")
    }     else if i == 55 {
        make_name("艾瑞斯", "Iris", "女")
    }     else if i == 56 {
        make_name("杰德", "Jade", "女")
    } else {
        make_name("锡达", "Cedar", "女")
    }
}

/// The names on offer.
pub fn get_all_english_names() -> (r: Vec<EnglishName>)
    ensures
        r.model() == english_names(),
{
    let mut names: Vec<EnglishName> = Vec::new();
    let mut i: usize = 0;
    assert(names.model() =~= Seq::new(0nat, |k: int| name_at(k)));
    while i < NAME_COUNT
        invariant
            i <= NAME_COUNT,
            names.model() == Seq::new(i as nat, |k: int| name_at(k)),
        decreases NAME_COUNT - i,
    {
        let name = nth_name(i);
        proof {
            lemma_models_push(names@, name);
            assert(Seq::new((i + 1) as nat, |k: int| name_at(k)) =~= Seq::new(
                i as nat,
                |k: int| name_at(k),
            ).push(name_at(i as int)));
        }
        names.push(name);
        i += 1;
    }
    names
}

/// What `str::to_lowercase` makes of a text.
pub uninterp spec fn lowercase(text: Seq<char>) -> Seq<char>;

/// Calls `str::to_lowercase`. The result is named `lowercase`.
#[verifier::external_body]
pub(crate) fn to_lowercase(text: &str) -> (r: String)
    ensures
        r@ == lowercase(text@),
{
    text.to_lowercase()
}

/// Calls `SystemTime::now` and gives the nanoseconds since the epoch, cut
/// to the width of `usize`; 0 where the clock stands before the epoch.
/// Nothing is promised of the number.
#[verifier::external_body]
pub(crate) fn clock_nanos() -> (r: usize) {
    match std::time::SystemTime::now().duration_since(std::time::UNIX_EPOCH) {
        Ok(d) => d.as_nanos() as usize,
        Err(_) => 0,
    }
}

/// The names of `names` that have the gender `gender`, in order.
pub open spec fn with_gender(names: Seq<EnglishNameModel>, gender: Seq<char>) -> Seq<
    EnglishNameModel,
>
    decreases names.len(),
{
    if names.len() == 0 {
        Seq::empty()
    } else if names.last().gender == gender {
        with_gender(names.drop_last(), gender).push(names.last())
    } else {
        with_gender(names.drop_last(), gender)
    }
}

/// The names to choose from: those of the gender asked for where it is `男`
/// or `女`, else all of them.
pub open spec fn name_pool(gender: Option<Seq<char>>) -> Seq<EnglishNameModel> {
    if gender == Some("男"@) {
        with_gender(english_names(), "男"@)
    } else if gender == Some("女"@) {
        with_gender(english_names(), "女"@)
    } else {
        english_names()
    }
}

/// A list that holds a name of a gender has names of that gender.
pub proof fn lemma_with_gender_nonempty(names: Seq<EnglishNameModel>, gender: Seq<char>, i: int)
    requires
        0 <= i < names.len(),
        names[i].gender == gender,
    ensures
        with_gender(names, gender).len() > 0,
        forall|k: int|
            0 <= k < with_gender(names, gender).len() ==> (#[trigger] with_gender(
                names,
                gender,
            )[k]).gender == gender,
    decreases names.len(),
{
    lemma_with_gender_all(names, gender);
    if i < names.len() - 1 {
        lemma_with_gender_nonempty(names.drop_last(), gender, i);
    }
}

/// Every name that the selection by gender keeps has that gender.
pub proof fn lemma_with_gender_all(names: Seq<EnglishNameModel>, gender: Seq<char>)
    ensures
        forall|k: int|
            0 <= k < with_gender(names, gender).len() ==> (#[trigger] with_gender(
                names,
                gender,
            )[k]).gender == gender,
    decreases names.len(),
{
    if names.len() > 0 {
        lemma_with_gender_all(names.drop_last(), gender);
        let front = with_gender(names.drop_last(), gender);
        let all = with_gender(names, gender);
        assert forall|k: int| 0 <= k < all.len() implies (#[trigger] all[k]).gender == gender by {
            if k < front.len() {
                assert(all[k] == front[k]);
            }
        }
    }
}

/// There is always a name to choose, and a name chosen for `男` or `女` has
/// that gender.
pub proof fn lemma_name_pool(gender: Option<Seq<char>>)
    ensures
        name_pool(gender).len() > 0,
        gender == Some("男"@) || gender == Some("女"@) ==> forall|k: int|
            0 <= k < name_pool(gender).len() ==> (#[trigger] name_pool(gender)[k]).gender
                == gender->0,
{
    assert(english_names()[0] == name_at(0));
    assert(english_names()[28] == name_at(28));
    lemma_with_gender_nonempty(english_names(), "男"@, 0);
    lemma_with_gender_nonempty(english_names(), "女"@, 28);
}

fn select_gender(names: &Vec<EnglishName>, gender: &str) -> (r: Vec<EnglishName>)
    ensures
        r.model() == with_gender(names.model(), gender@),
{
    let mut out: Vec<EnglishName> = Vec::new();
    let mut i: usize = 0;
    assert(names.model().take(0) =~= Seq::<EnglishNameModel>::empty());
    assert(out.model() =~= Seq::<EnglishNameModel>::empty());
    while i < names.len()
        invariant
            i <= names.len(),
            out.model() == with_gender(names.model().take(i as int), gender@),
        decreases names.len() - i,
    {
        proof {
            assert(names.model().take(i + 1).drop_last() =~= names.model().take(i as int));
            assert(names.model().take(i + 1).last() == names@[i as int].model());
        }
        if same_text(names[i].gender.as_str(), gender) {
            let name = EnglishName {
                zh: names[i].zh.clone(),
                en: names[i].en.clone(),
                gender: names[i].gender.clone(),
            };
            proof {
                lemma_models_push(out@, name);
            }
            out.push(name);
        }
        i += 1;
    }
    assert(names.model().take(names@.len() as int) =~= names.model());
    out
}

/// The model of an optional string slice.
pub open spec fn opt_text(t: Option<&str>) -> Option<Seq<char>> {
    match t {
        Some(s) => Some(s@),
        None => None,
    }
}

/// The name that the number `seed` chooses: the one at place `seed` of the
/// pool, counted round and round.
pub fn pick_english_name(gender: Option<&str>, seed: usize) -> (r: EnglishName)
    ensures
        r.model() == name_pool(opt_text(gender))[(seed as int) % (name_pool(
            opt_text(gender),
        ).len() as int)],
{
    let names = get_all_english_names();
    let male = match gender {
        Some(g) => same_text(g, "男"),
        None => false,
    };
    let female = match gender {
        Some(g) => same_text(g, "女"),
        None => false,
    };
    let pool = if male {
        select_gender(&names, "男")
    } else if female {
        select_gender(&names, "女")
    } else {
        names
    };
    proof {
        lemma_name_pool(opt_text(gender));
    }
    let index = seed % pool.len();
    assert(pool.model()[index as int] == pool@[index as int].model());
    EnglishName {
        zh: pool[index].zh.clone(),
        en: pool[index].en.clone(),
        gender: pool[index].gender.clone(),
    }
}

/// A name chosen by the clock: one of the pool for the gender asked for.
pub fn random_english_name(gender: Option<&str>) -> (r: EnglishName)
    ensures
        name_pool(opt_text(gender)).contains(r.model()),
{
    proof {
        lemma_name_pool(opt_text(gender));
    }
    pick_english_name(gender, clock_nanos())
}

/// How many colours are on offer.
pub const COLOR_COUNT: usize = 10;

/// The colour at place `i` of the list.
pub open spec fn color_at(i: int) -> Seq<char> {
    if i == 0 {
        "#FF6B6B"@
    } else if i == 1 {
        "#4ECDC4"@
    } else if i == 2 {
        "#45B7D1"@
    } else if i == 3 {
        "#96CEB4"@
    } else if i == 4 {
        "#FFEAA7"@
    } else if i == 5 {
        "#DDA0DD"@
    } else if i == 6 {
        "#98D8C8"@
    } else if i == 7 {
        "#F7DC6F"@
    } else if i == 8 {
        "#BB8FCE"@
    } else {
        "#85C1E9"@
    }
}

/// The colour that the number `seed` chooses.
pub fn pick_color(seed: usize) -> (r: String)
    ensures
        r@ == color_at((seed % COLOR_COUNT) as int),
{
    let i = seed % COLOR_COUNT;
    let color = if i == 0 {
        "#FF6B6B"
    } else if i == 1 {
        "#4ECDC4"
    } else if i == 2 {
        "#45B7D1"
    } else if i == 3 {
        "#96CEB4"
    } else if i == 4 {
        "#FFEAA7"
    } else if i == 5 {
        "#DDA0DD"
    } else if i == 6 {
        "#98D8C8"
    } else if i == 7 {
        "#F7DC6F"
    } else if i == 8 {
        "#BB8FCE"
    } else {
        "#85C1E9"
    };
    color.to_owned()
}

/// A colour chosen by the clock: one of the list.
pub fn get_random_color() -> (r: String)
    ensures
        exists|i: int| 0 <= i < COLOR_COUNT && r@ == color_at(i),
{
    let seed = clock_nanos();
    let r = pick_color(seed);
    assert(r@ == color_at((seed % COLOR_COUNT) as int));
    r
}

/// Whether a character may not stand in a folder name.
pub open spec fn is_illegal(c: char) -> bool {
    c == '/' || c == ':' || c == '?' || c == '*' || c == '"' || c == '<' || c == '>' || c == '|'
        || c == '!'
}

/// Whether a character is in the ASCII range.
pub open spec fn is_ascii_char(c: char) -> bool {
    (c as u32) < 128
}

/// The text with hyphens for spaces and without illegal characters.
pub open spec fn cleaned(s: Seq<char>) -> Seq<char>
    decreases s.len(),
{
    if s.len() == 0 {
        Seq::empty()
    } else if is_illegal(s.last()) {
        cleaned(s.drop_last())
    } else if s.last() == ' ' {
        cleaned(s.drop_last()).push('-')
    } else {
        cleaned(s.drop_last()).push(s.last())
    }
}

/// The text with each run of hyphens made one hyphen.
pub open spec fn collapsed(s: Seq<char>) -> Seq<char>
    decreases s.len(),
{
    if s.len() == 0 {
        Seq::empty()
    } else {
        let front = collapsed(s.drop_last());
        if s.last() == '-' && front.len() > 0 && front.last() == '-' {
            front
        } else {
            front.push(s.last())
        }
    }
}

/// The ASCII characters of the text.
pub open spec fn ascii_only(s: Seq<char>) -> Seq<char>
    decreases s.len(),
{
    if s.len() == 0 {
        Seq::empty()
    } else if is_ascii_char(s.last()) {
        ascii_only(s.drop_last()).push(s.last())
    } else {
        ascii_only(s.drop_last())
    }
}

/// The text without hyphens at its start.
pub open spec fn skip_hyphens(s: Seq<char>) -> Seq<char>
    decreases s.len(),
{
    if s.len() > 0 && s[0] == '-' {
        skip_hyphens(s.drop_first())
    } else {
        s
    }
}

/// The text without hyphens at its end.
pub open spec fn drop_trailing_hyphens(s: Seq<char>) -> Seq<char>
    decreases s.len(),
{
    if s.len() > 0 && s.last() == '-' {
        drop_trailing_hyphens(s.drop_last())
    } else {
        s
    }
}

/// The folder name for a lower-case title: hyphens for spaces, no illegal
/// characters, runs of hyphens made one, then only ASCII, and no hyphen at
/// either end.
pub open spec fn folder_name(lower: Seq<char>) -> Seq<char> {
    drop_trailing_hyphens(skip_hyphens(ascii_only(collapsed(cleaned(lower)))))
}

fn clean(v: &Vec<char>) -> (a: Vec<char>)
    ensures
        a@ == cleaned(v@),
{
    let mut a: Vec<char> = Vec::new();
    let mut i: usize = 0;
    assert(v@.take(0) =~= Seq::<char>::empty());
    while i < v.len()
        invariant
            i <= v.len(),
            a@ == cleaned(v@.take(i as int)),
        decreases v.len() - i,
    {
        proof {
            assert(v@.take(i + 1).drop_last() =~= v@.take(i as int));
        }
        let c = v[i];
        let illegal = c == '/' || c == ':' || c == '?' || c == '*' || c == '"' || c == '<' || c
            == '>' || c == '|' || c == '!';
        if illegal {
        } else if c == ' ' {
            a.push('-');
        } else {
            a.push(c);
        }
        i += 1;
    }
    assert(v@.take(v@.len() as int) =~= v@);
    a
}

fn collapse(a: &Vec<char>) -> (b: Vec<char>)
    ensures
        b@ == collapsed(a@),
{
    let mut b: Vec<char> = Vec::new();
    let mut j: usize = 0;
    assert(a@.take(0) =~= Seq::<char>::empty());
    while j < a.len()
        invariant
            j <= a.len(),
            b@ == collapsed(a@.take(j as int)),
        decreases a.len() - j,
    {
        proof {
            assert(a@.take(j + 1).drop_last() =~= a@.take(j as int));
        }
        let c = a[j];
        if c == '-' && b.len() > 0 && b[b.len() - 1] == '-' {
        } else {
            b.push(c);
        }
        j += 1;
    }
    assert(a@.take(a@.len() as int) =~= a@);
    b
}

fn keep_ascii(b: &Vec<char>) -> (d: Vec<char>)
    ensures
        d@ == ascii_only(b@),
{
    let mut d: Vec<char> = Vec::new();
    let mut k: usize = 0;
    assert(b@.take(0) =~= Seq::<char>::empty());
    while k < b.len()
        invariant
            k <= b.len(),
            d@ == ascii_only(b@.take(k as int)),
        decreases b.len() - k,
    {
        proof {
            assert(b@.take(k + 1).drop_last() =~= b@.take(k as int));
        }
        let c = b[k];
        if (c as u32) < 128 {
            d.push(c);
        }
        k += 1;
    }
    assert(b@.take(b@.len() as int) =~= b@);
    d
}

fn strip_hyphens(d: &Vec<char>) -> (r: String)
    ensures
        r@ == drop_trailing_hyphens(skip_hyphens(d@)),
{
    let mut from: usize = 0;
    assert(d@.subrange(0, d@.len() as int) =~= d@);
    while from < d.len() && d[from] == '-'
        invariant
            from <= d.len(),
            skip_hyphens(d@) == skip_hyphens(d@.subrange(from as int, d@.len() as int)),
        decreases d.len() - from,
    {
        assert(d@.subrange(from as int, d@.len() as int).drop_first() =~= d@.subrange(
            from + 1,
            d@.len() as int,
        ));
        from += 1;
    }
    let mut to: usize = d.len();
    while to > from && d[to - 1] == '-'
        invariant
            from <= to <= d.len(),
            drop_trailing_hyphens(d@.subrange(from as int, d@.len() as int))
                == drop_trailing_hyphens(d@.subrange(from as int, to as int)),
        decreases to - from,
    {
        assert(d@.subrange(from as int, to as int).drop_last() =~= d@.subrange(
            from as int,
            to - 1,
        ));
        to -= 1;
    }
    crate::text::from_chars(d, from, to)
}

/// The folder name for a title that is already in lower case.
pub fn folder_name_of(lower: &str) -> (r: String)
    ensures
        r@ == folder_name(lower@),
{
    let v = to_chars(lower);
    let a = clean(&v);
    let b = collapse(&a);
    let d = keep_ascii(&b);
    strip_hyphens(&d)
}

/// The folder name for a title.
pub fn to_legal_folder_name(name: &str) -> (r: String)
    ensures
        r@ == folder_name(lowercase(name@)),
{
    let lower = to_lowercase(name);
    folder_name_of(lower.as_str())
}

} // verus!
