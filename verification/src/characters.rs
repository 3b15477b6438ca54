use vstd::prelude::*;
use crate::dice_roll::random_below;
use crate::language::Language;

verus! {

/// One persona: the forum account it posts as and the instruction that
/// sets its voice.
pub struct Character {
    pub user_id: i32,
    pub system_message: String,
}

pub struct CharacterModel {
    pub user_id: i32,
    pub system_message: Seq<char>,
}

impl View for Character {
    type V = CharacterModel;

    open spec fn view(&self) -> CharacterModel {
        CharacterModel { user_id: self.user_id, system_message: self.system_message@ }
    }
}

impl DeepView for Character {
    type V = CharacterModel;

    open spec fn deep_view(&self) -> CharacterModel {
        self.view()
    }
}

impl Clone for Character {
    fn clone(&self) -> (r: Self)
        ensures
            r == *self,
    {
        Character { user_id: self.user_id, system_message: self.system_message.clone() }
    }
}

/// Some character of the catalog posts as the given forum account.
pub open spec fn list_has_user(l: Seq<CharacterModel>, user_id: i32) -> bool {
    exists|i: int| 0 <= i < l.len() && #[trigger] l[i].user_id == user_id
}

/// The character is the catalog's first with the given forum account.
pub open spec fn is_first_with_user(l: Seq<CharacterModel>, user_id: i32, c: CharacterModel) -> bool {
    exists|i: int|
        {
            &&& 0 <= i < l.len()
            &&& #[trigger] l[i] == c
            &&& l[i].user_id == user_id
            &&& forall|j: int| 0 <= j < i ==> #[trigger] l[j].user_id != user_id
        }
}

/// Picks the acting persona for one run: the catalog character with the
/// given account when one is named, any catalog character otherwise.
pub fn get_character<L: Language>(lang: &L, user_id: Option<i32>) -> (c: Character)
    requires
        user_id matches Some(u) ==> list_has_user(lang.spec_character_list(), u),
    ensures
        lang.spec_character_list().contains(c@),
        user_id matches Some(u) ==> is_first_with_user(lang.spec_character_list(), u, c@),
{
    let list = lang.get_character_list();
    match user_id {
        None => get_random_character(lang),
        Some(u) => {
            let mut i: usize = 0;
            while list[i].user_id != u
                invariant
                    0 <= i < list.len(),
                    list.deep_view() == lang.spec_character_list(),
                    forall|j: int| 0 <= j < i ==> #[trigger] list.deep_view()[j].user_id != u,
                    exists|j: int|
                        i <= j < list.deep_view().len() && #[trigger] list.deep_view()[j].user_id
                            == u,
                decreases list.len() - i,
            {
                i = i + 1;
                proof {
                    let j = choose|j: int|
                        i - 1 <= j < list.deep_view().len()
                            && #[trigger] list.deep_view()[j].user_id == u;
                    assert(i <= j < list.deep_view().len());
                }
            }
            let c = list[i].clone();
            assert(lang.spec_character_list().contains(c@)) by {
                assert(lang.spec_character_list()[i as int] == c@);
            }
            assert(is_first_with_user(lang.spec_character_list(), u, c@)) by {
                assert(lang.spec_character_list()[i as int] == c@);
            }
            c
        },
    }
}

/// Any character of the catalog, drawn at random.
fn get_random_character<L: Language>(lang: &L) -> (c: Character)
    ensures
        lang.spec_character_list().contains(c@),
{
    let list = lang.get_character_list();
    let k = random_below(list.len());
    let c = list[k].clone();
    assert(lang.spec_character_list().contains(c@)) by {
        assert(lang.spec_character_list()[k as int] == c@);
    }
    c
}

} // verus!
