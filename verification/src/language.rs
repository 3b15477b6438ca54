use vstd::prelude::*;
use crate::characters::Character;
use crate::characters::CharacterModel;

verus! {

/// One locale of the system: its character catalog and the three prompt
/// texts the decision flow needs.
pub trait Language {
    /// The locale's character catalog.
    spec fn spec_character_list(&self) -> Seq<CharacterModel>;

    /// The prompt asking for a new topic's title.
    spec fn spec_new_topic_title_prompt(&self) -> Seq<char>;

    /// The prompt asking for a new topic's body, given its title.
    spec fn spec_new_topic_prompt(&self, title: Seq<char>) -> Seq<char>;

    /// The prompt asking for a reply, given the discussion's title and
    /// its joined comment history.
    spec fn spec_reply_prompt(&self, title: Seq<char>, history: Seq<char>) -> Seq<char>;

    fn get_character_list(&self) -> (r: Vec<Character>)
        ensures
            r.deep_view() == self.spec_character_list(),
            r.len() > 0,
    ;

    fn get_new_topic_title_prompt(&self) -> (r: String)
        ensures
            r@ == self.spec_new_topic_title_prompt(),
    ;

    fn get_new_topic_prompt(&self, title: &str) -> (r: String)
        ensures
            r@ == self.spec_new_topic_prompt(title@),
    ;

    fn get_reply_prompt(&self, title: &str, history: &str) -> (r: String)
        ensures
            r@ == self.spec_reply_prompt(title@, history@),
    ;
}

} // verus!
