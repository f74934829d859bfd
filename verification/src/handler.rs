//! What the bot answers to ordinary messages.

use rand::Rng;
use vstd::prelude::*;
use vstd::string::StringExecFns;

use crate::text::chars_of;
use crate::text::contains_word;
use crate::text::has_word;
use crate::text::lowered;
use crate::text::same_text;
use crate::text::to_lowercase;

verus! {

/// One answer to a message.
pub enum AutoReply {
    /// Say this in the channel of the message.
    Say(String),
    /// Answer the message with this.
    Reply(String),
}

/// An answer as mathematical values: whether it answers the message, and
/// its text.
pub struct Answer {
    pub reply: bool,
    pub text: Seq<char>,
}

impl View for AutoReply {
    type V = Answer;

    open spec fn view(&self) -> Answer {
        match self {
            AutoReply::Say(text) => Answer { reply: false, text: text@ },
            AutoReply::Reply(text) => Answer { reply: true, text: text@ },
        }
    }
}

/// The answers of a list.
pub open spec fn answers(replies: Seq<AutoReply>) -> Seq<Answer> {
    Seq::new(replies.len(), |i: int| replies[i]@)
}

/// The user whose questions about certain activities are turned down.
pub const ASKER: u64 = 213695908393517056;

/// The pictures that turn a question down.
pub const REFUSALS: usize = 17;

/// The picture `index` of those that turn a question down.
pub open spec fn spec_refusal(index: usize) -> &'static str {
    if index == 0 {
        "https://cdn.discordapp.com/attachments/761023449572311071/870117652000030731/az9og6Z_460swp.png"
    } else if index == 1 {
        "https://cdn.discordapp.com/attachments/820186217974595595/875553389654712340/no-no-93.png"
    } else if index == 2 {
        "https://cdn.discordapp.com/attachments/820186217974595595/875553414933798932/No.PNG"
    } else if index == 3 {
        "https://cdn.discordapp.com/attachments/820186217974595595/875553470562836480/im_gonna_pretend_i_didnt_see_that.png"
    } else if index == 4 {
        "https://cdn.discordapp.com/attachments/820186217974595595/875554649623646248/d518802fbfe0180d5c818f388e5979a8.png"
    } else if index == 5 {
        "https://cdn.discordapp.com/attachments/820186217974595595/875554722390618163/unknown.png"
    } else if index == 6 {
        "https://cdn.discordapp.com/attachments/820186217974595595/875554762437849159/Nogrumpycat-5ae79bb7c5542e00390dd621.png"
    } else if index == 7 {
        "https://cdn.discordapp.com/attachments/820186217974595595/875554825809575946/110e3daa389718d1a33b751b62938dde.png"
    } else if index == 8 {
        "https://cdn.discordapp.com/attachments/820186217974595595/875554907317489724/yellow-octopus-no-meme-6.png"
    } else if index == 9 {
        "https://cdn.discordapp.com/attachments/820186217974595595/875555461976449096/unknown.png"
    } else if index == 10 {
        "https://cdn.discordapp.com/attachments/820186217974595595/875555529097900092/395-3950272_no-stop-reaction-meme-memes-wtf-whatthehell-brendon.png"
    } else if index == 11 {
        "https://cdn.discordapp.com/attachments/820186217974595595/875555583011487774/4802887.png"
    } else if index == 12 {
        "https://cdn.discordapp.com/attachments/820186217974595595/875555645795991582/not-today-little-boy-meme.png"
    } else if index == 13 {
        "https://cdn.discordapp.com/attachments/820186217974595595/875555728784515112/yellow-octopus-no-meme-15.png"
    } else if index == 14 {
        "https://cdn.discordapp.com/attachments/820186217974595595/875555932652838942/962.png"
    } else if index == 15 {
        "https://cdn.discordapp.com/attachments/820186217974595595/875555987199774740/f014e13efec361d2972e234d3dd1e6b792e8336b.png"
    } else {
        "https://cdn.discordapp.com/attachments/820186217974595595/875556129822867496/How-About-No-Bear.png"
    }
}

/// The picture `index` of those that turn a question down.
#[verifier::when_used_as_spec(spec_refusal)]
pub fn refusal(index: usize) -> (link: &'static str)
    requires
        index < REFUSALS,
    ensures
        link == spec_refusal(index),
{
    if index == 0 {
        "https://cdn.discordapp.com/attachments/761023449572311071/870117652000030731/az9og6Z_460swp.png"
    } else if index == 1 {
        "https://cdn.discordapp.com/attachments/820186217974595595/875553389654712340/no-no-93.png"
    } else if index == 2 {
        "https://cdn.discordapp.com/attachments/820186217974595595/875553414933798932/No.PNG"
    } else if index == 3 {
        "https://cdn.discordapp.com/attachments/820186217974595595/875553470562836480/im_gonna_pretend_i_didnt_see_that.png"
    } else if index == 4 {
        "https://cdn.discordapp.com/attachments/820186217974595595/875554649623646248/d518802fbfe0180d5c818f388e5979a8.png"
    } else if index == 5 {
        "https://cdn.discordapp.com/attachments/820186217974595595/875554722390618163/unknown.png"
    } else if index == 6 {
        "https://cdn.discordapp.com/attachments/820186217974595595/875554762437849159/Nogrumpycat-5ae79bb7c5542e00390dd621.png"
    } else if index == 7 {
        "https://cdn.discordapp.com/attachments/820186217974595595/875554825809575946/110e3daa389718d1a33b751b62938dde.png"
    } else if index == 8 {
        "https://cdn.discordapp.com/attachments/820186217974595595/875554907317489724/yellow-octopus-no-meme-6.png"
    } else if index == 9 {
        "https://cdn.discordapp.com/attachments/820186217974595595/875555461976449096/unknown.png"
    } else if index == 10 {
        "https://cdn.discordapp.com/attachments/820186217974595595/875555529097900092/395-3950272_no-stop-reaction-meme-memes-wtf-whatthehell-brendon.png"
    } else if index == 11 {
        "https://cdn.discordapp.com/attachments/820186217974595595/875555583011487774/4802887.png"
    } else if index == 12 {
        "https://cdn.discordapp.com/attachments/820186217974595595/875555645795991582/not-today-little-boy-meme.png"
    } else if index == 13 {
        "https://cdn.discordapp.com/attachments/820186217974595595/875555728784515112/yellow-octopus-no-meme-15.png"
    } else if index == 14 {
        "https://cdn.discordapp.com/attachments/820186217974595595/875555932652838942/962.png"
    } else if index == 15 {
        "https://cdn.discordapp.com/attachments/820186217974595595/875555987199774740/f014e13efec361d2972e234d3dd1e6b792e8336b.png"
    } else {
        "https://cdn.discordapp.com/attachments/820186217974595595/875556129822867496/How-About-No-Bear.png"
    }
}

/// `list` with `answer` behind it where `wanted` holds.
pub open spec fn and_if(list: Seq<Answer>, wanted: bool, answer: Answer) -> Seq<Answer> {
    if wanted {
        list.push(answer)
    } else {
        list
    }
}

/// Whether a message in lower case asks about the activities that the
/// asker is turned down for.
pub open spec fn is_question(lower: Seq<char>) -> bool {
    has_word(lower, "gm"@) || has_word(lower, "grandmaster"@) || has_word(lower, "nightfall"@)
        || has_word(lower, "nf"@)
}

/// The answers to a message whose text in lower case is `lower`, in the
/// order in which they are given. `index` picks the picture for the
/// asker.
pub open spec fn replies_to(lower: Seq<char>, author: u64, index: usize) -> Seq<Answer> {
    let none = Seq::<Answer>::empty();
    let one = and_if(
        none,
        has_word(lower, "sompies"@),
        Answer { reply: false, text: "sompies to be removed fro mgame"@ },
    );
    let two = and_if(
        one,
        has_word(lower, "monke"@),
        Answer { reply: false, text: "https://youtu.be/XZ5Uv4JKTU4"@ },
    );
    let three = and_if(two, has_word(lower, "bingus"@), Answer { reply: false, text: "hi"@ });
    let four = and_if(
        three,
        author == ASKER && is_question(lower),
        Answer { reply: true, text: refusal(index)@ },
    );
    let five = and_if(
        four,
        has_word(lower, "linux"@),
        Answer {
            reply: true,
            text: "https://preview.redd.it/ps4p9o323ub11.jpg?width=640&crop=smart&auto=webp&s=bd53639576973220c48940f8926d91349300950e"@,
        },
    );
    let six = and_if(
        five,
        has_word(lower, "soder"@),
        Answer { reply: true, text: "https://youtu.be/p7LabSw36qs"@ },
    );
    let seven = and_if(
        six,
        has_word(lower, "time"@),
        Answer {
            reply: true,
            text: "Reset time. Same as usual. You can start the game though just to see the title screen."@,
        },
    );
    let eight = and_if(
        seven,
        lower == "os"@,
        Answer {
            reply: true,
            text: "https://cdn.discordapp.com/attachments/480613470367252500/854518024500936764/a9EyEKZ_460svvp9.webm"@,
        },
    );
    and_if(eight, has_word(lower, "reddit"@), Answer { reply: true, text: "reddit moment"@ })
}

/// Says `text` where `wanted` holds.
fn say(replies: &mut Vec<AutoReply>, wanted: bool, text: &str)
    ensures
        answers(final(replies)@) == and_if(
            answers(old(replies)@),
            wanted,
            Answer { reply: false, text: text@ },
        ),
{
    if wanted {
        replies.push(AutoReply::Say(String::from_str(text)));
        assert(answers(replies@) =~= answers(old(replies)@).push(
            Answer { reply: false, text: text@ },
        ));
    }
}

/// Answers with `text` where `wanted` holds.
fn reply(replies: &mut Vec<AutoReply>, wanted: bool, text: &str)
    ensures
        answers(final(replies)@) == and_if(
            answers(old(replies)@),
            wanted,
            Answer { reply: true, text: text@ },
        ),
{
    if wanted {
        replies.push(AutoReply::Reply(String::from_str(text)));
        assert(answers(replies@) =~= answers(old(replies)@).push(
            Answer { reply: true, text: text@ },
        ));
    }
}

/// The answers to the message `content` of `author`, in the order in
/// which they are given. `index` picks the picture for the asker.
pub fn auto_replies(content: &str, author: u64, index: usize) -> (replies: Vec<AutoReply>)
    requires
        index < REFUSALS,
    ensures
        answers(replies@) == replies_to(lowered(content@), author, index),
{
    let lower = to_lowercase(content);
    let chars = chars_of(lower.as_str());
    let mut replies: Vec<AutoReply> = Vec::new();
    assert(answers(replies@) =~= Seq::<Answer>::empty());
    say(&mut replies, contains_word(&chars, "sompies"), "sompies to be removed fro mgame");
    say(&mut replies, contains_word(&chars, "monke"), "https://youtu.be/XZ5Uv4JKTU4");
    say(&mut replies, contains_word(&chars, "bingus"), "hi");
    let question = contains_word(&chars, "gm") || contains_word(&chars, "grandmaster")
        || contains_word(&chars, "nightfall") || contains_word(&chars, "nf");
    reply(&mut replies, author == ASKER && question, refusal(index));
    reply(
        &mut replies,
        contains_word(&chars, "linux"),
        "https://preview.redd.it/ps4p9o323ub11.jpg?width=640&crop=smart&auto=webp&s=bd53639576973220c48940f8926d91349300950e",
    );
    reply(&mut replies, contains_word(&chars, "soder"), "https://youtu.be/p7LabSw36qs");
    reply(
        &mut replies,
        contains_word(&chars, "time"),
        "Reset time. Same as usual. You can start the game though just to see the title screen.",
    );
    reply(
        &mut replies,
        same_text(lower.as_str(), "os"),
        "https://cdn.discordapp.com/attachments/480613470367252500/854518024500936764/a9EyEKZ_460svvp9.webm",
    );
    reply(&mut replies, contains_word(&chars, "reddit"), "reddit moment");
    replies
}

/// rand's `thread_rng` and `Rng::gen_range` on the numbers below `count`:
/// one of them, whichever.
#[verifier::external_body]
fn pick(count: usize) -> (index: usize)
    requires
        count > 0,
    ensures
        index < count,
{
    rand::thread_rng().gen_range(0..count)
}

/// The answers to the message `content` of `author`, in the order in
/// which they are given. The picture for the asker is picked by chance.
pub fn handle_normal(content: &str, author: u64) -> (replies: Vec<AutoReply>)
    ensures
        exists|index: usize|
            index < REFUSALS && answers(replies@) == #[trigger] replies_to(
                lowered(content@),
                author,
                index,
            ),
{
    let index = pick(REFUSALS);
    auto_replies(content, author, index)
}

} // verus!
