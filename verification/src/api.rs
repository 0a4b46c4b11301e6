use vstd::prelude::*;
use crate::error::StdErr;

verus! {

/// The host's answers to address validation, one for each address that a
/// call names: the validated address, or the error the host reported.
/// Where an address is listed twice, the first answer counts.
pub struct Api {
    pub answers: Vec<(String, Result<String, StdErr>)>,
}

/// The first answer given for `a`.
pub open spec fn lookup(answers: Seq<(String, Result<String, StdErr>)>, a: Seq<char>) -> Option<
    Result<String, StdErr>,
>
    decreases answers.len(),
{
    if answers.len() == 0 {
        None
    } else if answers[0].0@ == a {
        Some(answers[0].1)
    } else {
        lookup(answers.drop_first(), a)
    }
}

/// A validation answer with the address taken as characters.
pub open spec fn answer_view(r: Result<String, StdErr>) -> Result<Seq<char>, StdErr> {
    match r {
        Ok(s) => Ok(s@),
        Err(e) => Err(e),
    }
}

impl Api {
    /// The host answered for `a`.
    pub open spec fn knows(&self, a: Seq<char>) -> bool {
        lookup(self.answers@, a) is Some
    }

    /// The host answered for `a`, and a valid address comes back unchanged,
    /// as the host's `Api::addr_validate` documents.
    pub open spec fn answers_for(&self, a: Seq<char>) -> bool {
        &&& self.knows(a)
        &&& self.validated(a) matches Ok(v) ==> v == a
    }

    /// The host's answer for `a`.
    pub open spec fn validated(&self, a: Seq<char>) -> Result<Seq<char>, StdErr> {
        answer_view(lookup(self.answers@, a).unwrap())
    }
}

/// Where the first answer for `a` stands among the answers.
proof fn lemma_lookup_index(answers: Seq<(String, Result<String, StdErr>)>, a: Seq<char>) -> (i: int)
    requires
        lookup(answers, a) is Some,
    ensures
        0 <= i < answers.len(),
        answers[i].0@ == a,
        lookup(answers, a) == Some(answers[i].1),
        forall|j: int| 0 <= j < i ==> #[trigger] answers[j].0@ != a,
    decreases answers.len(),
{
    if answers[0].0@ == a {
        0
    } else {
        let k = lemma_lookup_index(answers.drop_first(), a);
        assert forall|j: int| 0 <= j < k + 1 implies #[trigger] answers[j].0@ != a by {
            if j > 0 {
                assert(answers[j] == answers.drop_first()[j - 1]);
            }
        }
        k + 1
    }
}

impl Api {
    /// Looks up the host's answer for `input`: the validated address, or
    /// the position of the error among the answers.
    pub fn addr_validate(&self, input: &String) -> (r: Result<String, usize>)
        requires
            self.knows(input@),
        ensures
            r matches Ok(s) ==> self.validated(input@) == Ok::<Seq<char>, StdErr>(s@),
            r matches Err(i) ==> i < self.answers.len() && self.answers@[i as int].1 is Err
                && Err::<Seq<char>, StdErr>(self.answers@[i as int].1->Err_0) == self.validated(
                input@,
            ),
    {
        let ghost k = lemma_lookup_index(self.answers@, input@);
        let n = self.answers.len();
        let mut i: usize = 0;
        while i < n
            invariant
                n == self.answers.len(),
                0 <= k < n,
                i <= k,
                self.answers@[k].0@ == input@,
                lookup(self.answers@, input@) == Some(self.answers@[k].1),
                forall|j: int| 0 <= j < k ==> #[trigger] self.answers@[j].0@ != input@,
            decreases n - i,
        {
            if self.answers[i].0 == *input {
                assert(i == k);
                return match &self.answers[i].1 {
                    Ok(s) => Ok(s.clone()),
                    Err(_) => Err(i),
                };
            }
            i = i + 1;
        }
        assert(false);
        Err(0)
    }

    /// Hands out the error at position `i`; the answers are used up.
    pub fn into_error(self, i: usize) -> (e: StdErr)
        requires
            i < self.answers.len(),
            self.answers@[i as int].1 is Err,
        ensures
            e == self.answers@[i as int].1->Err_0,
    {
        let mut answers = self.answers;
        let (_, r) = answers.swap_remove(i);
        match r {
            Ok(_) => {
                assert(false);
                StdErr::GenericErr { msg: String::new() }
            },
            Err(e) => e,
        }
    }
}

} // verus!
