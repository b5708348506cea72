use std::collections::HashMap;
use vstd::prelude::*;

verus! {

/// One hint attached to a question.
pub struct Hint {
    pub hint_title: String,
    pub hint_description: String,
}

/// One exercise of the catalogue.
pub struct Question {
    pub name: String,
    pub description: Option<String>,
    pub text: String,
    pub help: Option<String>,
    pub hints: Vec<Hint>,
}

/// Key under which the only exercise of the catalogue is filed.
pub const DODO_EAGLE_ID: i64 = 1;

/// Title of the exercise filed under `DODO_EAGLE_ID`.
pub const DODO_EAGLE_NAME: &'static str = "Dodo the Eagle [Medium]";

/// Source text handed to the student; `[???]` marks the part to fill in.
pub const DODO_EAGLE_TEXT: &'static str = "//7 there is record implementing interface, add interface,
//methods is satisfied by field

[???]
record Eagle(double speed) implements Bird{}
public class Exercise{
  public static void main(String[] arg){
    Eagle dodo = new Eagle(3);
    Bird a1 = dodo;
    Bird a2 = new Eagle(6);
    assert a1.speed()==3;
    assert a1.flyingSpeed()==30;
    assert a2.speed()==6;
    assert a2.flyingSpeed()==60;
  }
}
        ";

/// The catalogue: a read-only map from question id to question.
pub fn get_questions() -> (r: HashMap<i64, Question>)
    ensures
        r@.dom() =~= set![DODO_EAGLE_ID],
        r@[DODO_EAGLE_ID].name@ == DODO_EAGLE_NAME@,
        r@[DODO_EAGLE_ID].text@ == DODO_EAGLE_TEXT@,
        r@[DODO_EAGLE_ID].description is None,
        r@[DODO_EAGLE_ID].help is None,
        r@[DODO_EAGLE_ID].hints@.len() == 0,
{
    broadcast use vstd::std_specs::hash::group_hash_axioms;
    let mut questions: HashMap<i64, Question> = HashMap::new();
    let dodo = Question {
        name: DODO_EAGLE_NAME.to_string(),
        description: None,
        text: DODO_EAGLE_TEXT.to_string(),
        hints: Vec::new(),
        help: None,
    };
    questions.insert(DODO_EAGLE_ID, dodo);
    questions
}

/// Looks a question up by its id.
pub fn find_question(questions: &HashMap<i64, Question>, id: i64) -> (r: Option<&Question>)
    ensures
        r matches Some(q) <==> questions@.contains_key(id),
        r matches Some(q) ==> *q == questions@[id],
{
    broadcast use vstd::std_specs::hash::group_hash_axioms;
    questions.get(&id)
}

} // verus!
