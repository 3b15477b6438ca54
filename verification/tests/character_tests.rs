use forum_persona::characters::get_character;
use forum_persona::english;
use forum_persona::english::EnglishLanguage;
use forum_persona::language::Language;
use forum_persona::portuguese;
use forum_persona::portuguese::PortugueseLanguage;

#[test]
fn english_catalog_has_its_characters() {
    let list = EnglishLanguage.get_character_list();
    assert_eq!(list.len(), 27);
    assert!(list.iter().any(|c| c.user_id == 7));
    assert!(list.iter().all(|c| !c.system_message.is_empty()));
}

#[test]
fn portuguese_catalog_has_its_characters() {
    let list = PortugueseLanguage.get_character_list();
    assert_eq!(list.len(), 28);
    assert!(list.iter().any(|c| c.user_id == 34));
}

#[test]
fn get_character_by_id_returns_that_persona() {
    let c = get_character(&EnglishLanguage, Some(7));
    assert_eq!(c.user_id, 7);
    assert!(c.system_message.contains("Smurfette"));
}

#[test]
fn get_character_without_id_draws_from_the_catalog() {
    let c = get_character(&EnglishLanguage, None);
    let list = EnglishLanguage.get_character_list();
    assert!(list
        .iter()
        .any(|x| x.user_id == c.user_id && x.system_message == c.system_message));
}

#[test]
fn english_char_builders_frame_the_message() {
    let c = english::char_by_name(6, "Luke Skywalker");
    assert_eq!(c.user_id, 6);
    assert!(c.system_message.starts_with("You are a parody of the character named <Luke Skywalker>."));
    assert!(c.system_message.ends_with("don't present yourself."));

    let c = english::char_by_msg(11, "You're a robot.");
    assert!(c.system_message.starts_with("You're a robot.. You are participating"));
}

#[test]
fn portuguese_char_builders_frame_the_message() {
    let c = portuguese::char_by_name(6, "Luke Skywalker");
    assert!(c.system_message.starts_with("Você é uma paródia do personagem chamado <Luke Skywalker>."));

    let c = portuguese::char_by_msg(12, "Você é Voldemort");
    assert!(c.system_message.starts_with("Você é Voldemort. Você está participando"));
}

#[test]
fn english_prompts_embed_their_arguments() {
    let lang = EnglishLanguage;
    let title_prompt = lang.get_new_topic_title_prompt();
    assert!(title_prompt.starts_with("You've decided to create a new topic"));

    let body_prompt = lang.get_new_topic_prompt("My Topic");
    assert!(body_prompt.contains("The title is: My Topic."));

    let reply_prompt = lang.get_reply_prompt("My Topic", "a\n\nb");
    assert!(reply_prompt.contains("a discussion titled [My Topic]."));
    assert!(reply_prompt.contains("the last comments in this discussion: a\n\nb."));
}

#[test]
fn portuguese_prompts_embed_their_arguments() {
    let lang = PortugueseLanguage;
    assert!(lang.get_new_topic_title_prompt().starts_with("Você decidiu criar um novo tópico"));
    assert!(lang.get_new_topic_prompt("Meu Tópico").contains("O título é: Meu Tópico."));
    assert!(lang.get_reply_prompt("Meu Tópico", "x").contains("intitulada [Meu Tópico]."));
}
