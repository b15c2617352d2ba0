//! The option file of the remux tool.
//!
//! The tool reads its arguments from a file that holds them as a flat array of
//! quoted strings: the output flag and the output path, the audio file if
//! there is one, and the chunk files between an opening and a closing group
//! marker. The chunks are named by their index, `encoded_chunk_0`,
//! `encoded_chunk_1` and so on, each with the extension of the encoder; the
//! tool runs in the directory that holds them, so the names stand alone.

use crate::decimal::{decimal_digits, decimal_text};
use vstd::prelude::*;

verus! {

/// The text that `Debug` formatting makes of a string: the string between
/// double quotes, with the characters escaped that Rust escapes there.
pub uninterp spec fn debug_quoted(text: Seq<char>) -> Seq<char>;

/// `<str as core::fmt::Debug>::fmt`, through `format!`. The contract claims
/// that the quoted text is a function of the text alone.
#[verifier::external_body]
pub(crate) fn debug_quote(text: &str) -> (quoted: String)
    ensures
        quoted@ == debug_quoted(text@),
{
    format!("{:?}", text)
}

/// `text` between double quotes, as it is.
pub open spec fn in_quotes(text: Seq<char>) -> Seq<char> {
    "\""@ + text + "\""@
}

/// The file name of the chunk with the given index.
pub open spec fn chunk_name(index: nat, extension: Seq<char>) -> Seq<char> {
    "encoded_chunk_"@ + decimal_digits(index) + "."@ + extension
}

/// The elements that name the chunks `0` to `count - 1`, in that order.
pub open spec fn chunk_elements(count: nat, extension: Seq<char>) -> Seq<Seq<char>> {
    Seq::new(count, |i: int| in_quotes(chunk_name(i as nat, extension)))
}

/// The element for the audio file: one if there is a file, none if not.
pub open spec fn audio_elements(audio: Option<Seq<char>>) -> Seq<Seq<char>> {
    match audio {
        Some(element) => seq![element],
        None => seq![],
    }
}

/// The elements of the option file, in order. `output` and `audio` are
/// elements as they are written, quotes included.
pub open spec fn option_elements(
    count: nat,
    extension: Seq<char>,
    output: Seq<char>,
    audio: Option<Seq<char>>,
) -> Seq<Seq<char>> {
    seq![in_quotes("-o"@), output] + audio_elements(audio) + seq![in_quotes("["@)]
        + chunk_elements(count, extension) + seq![in_quotes("]"@)]
}

/// `elements` with a comma and a space between each two.
pub open spec fn comma_separated(elements: Seq<Seq<char>>) -> Seq<char>
    decreases elements.len(),
{
    if elements.len() == 0 {
        Seq::empty()
    } else if elements.len() == 1 {
        elements[0]
    } else {
        comma_separated(elements.drop_last()) + ", "@ + elements.last()
    }
}

/// The array as the file holds it: in square brackets, a comma and a space
/// between the elements, and the last element right behind its comma.
pub open spec fn rendered(elements: Seq<Seq<char>>) -> Seq<char> {
    "["@ + comma_separated(elements.drop_last()) + ","@ + elements.last() + "]"@
}

/// The text of the option file.
pub open spec fn options_text(
    count: nat,
    extension: Seq<char>,
    output: Seq<char>,
    audio: Option<Seq<char>>,
) -> Seq<char> {
    rendered(option_elements(count, extension, output, audio))
}

/// The text of the option file for paths that are yet to be quoted.
pub open spec fn quoted_options_text(
    count: nat,
    extension: Seq<char>,
    output: Seq<char>,
    audio: Option<Seq<char>>,
) -> Seq<char> {
    options_text(
        count,
        extension,
        debug_quoted(output),
        match audio {
            Some(path) => Some(debug_quoted(path)),
            None => None,
        },
    )
}

proof fn lemma_comma_separated_push(elements: Seq<Seq<char>>, element: Seq<char>)
    requires
        elements.len() > 0,
    ensures
        comma_separated(elements.push(element)) == comma_separated(elements) + ", "@ + element,
{
    assert(elements.push(element).drop_last() =~= elements);
}

proof fn lemma_comma_separated_pair(first: Seq<char>, second: Seq<char>)
    ensures
        comma_separated(seq![first, second]) == first + ", "@ + second,
{
    let single = seq![first];
    assert(comma_separated(single) == first);
    lemma_comma_separated_push(single, second);
    assert(single.push(second) =~= seq![first, second]);
}

proof fn lemma_comma_separated_concat(front: Seq<Seq<char>>, back: Seq<Seq<char>>)
    requires
        front.len() > 0,
        back.len() > 0,
    ensures
        comma_separated(front + back) == comma_separated(front) + ", "@ + comma_separated(back),
    decreases back.len(),
{
    if back.len() == 1 {
        assert(front + back =~= front.push(back[0]));
        lemma_comma_separated_push(front, back[0]);
    } else {
        let init = back.drop_last();
        lemma_comma_separated_concat(front, init);
        assert((front + back).drop_last() =~= front + init);
        assert(comma_separated(front + back) =~= comma_separated(front) + ", "@ + comma_separated(
            back,
        ));
    }
}

/// The option file names exactly the chunks `0` to `count - 1`, in that
/// order, between the two group markers, whether or not there is audio.
pub proof fn lemma_chunks_in_order(
    count: nat,
    extension: Seq<char>,
    output: Seq<char>,
    audio: Option<Seq<char>>,
)
    requires
        count > 0,
    ensures
        ({
            let elements = option_elements(count, extension, output, audio);
            let first: int = 3 + audio_elements(audio).len() as int;
            &&& elements.len() == first + count + 1
            &&& elements[first - 1] == in_quotes("["@)
            &&& elements.subrange(first, first + count) == chunk_elements(count, extension)
            &&& forall|i: int|
                0 <= i < count ==> #[trigger] elements[first + i] == in_quotes(
                    chunk_name(i as nat, extension),
                )
            &&& elements[first + count] == in_quotes("]"@)
        }),
{
    let elements = option_elements(count, extension, output, audio);
    let first: int = 3 + audio_elements(audio).len() as int;
    assert(elements.subrange(first, first + count) =~= chunk_elements(count, extension));
}

/// With an audio file the option file holds one element more, right behind
/// the output path, and is otherwise what it is without one.
pub proof fn lemma_audio_adds_one_element(
    count: nat,
    extension: Seq<char>,
    output: Seq<char>,
    audio: Seq<char>,
)
    ensures
        option_elements(count, extension, output, Some(audio)) == option_elements(
            count,
            extension,
            output,
            None,
        ).insert(2, audio),
        ({
            let head = "["@ + in_quotes("-o"@) + ", "@ + output;
            let tail = ", "@ + comma_separated(
                seq![in_quotes("["@)] + chunk_elements(count, extension),
            ) + ","@ + in_quotes("]"@) + "]"@;
            &&& options_text(count, extension, output, None) == head + tail
            &&& options_text(count, extension, output, Some(audio)) == head + ", "@ + audio + tail
        }),
{
    let with = option_elements(count, extension, output, Some(audio));
    let without = option_elements(count, extension, output, None);
    assert(with =~= without.insert(2, audio));

    let lead = seq![in_quotes("-o"@), output];
    let group = seq![in_quotes("["@)] + chunk_elements(count, extension);
    lemma_comma_separated_pair(in_quotes("-o"@), output);
    assert(without.drop_last() =~= lead + group);
    lemma_comma_separated_concat(lead, group);
    assert(with.drop_last() =~= lead.push(audio) + group);
    lemma_comma_separated_push(lead, audio);
    lemma_comma_separated_concat(lead.push(audio), group);
    let head = "["@ + in_quotes("-o"@) + ", "@ + output;
    let tail = ", "@ + comma_separated(group) + ","@ + in_quotes("]"@) + "]"@;
    assert(options_text(count, extension, output, None) =~= head + tail);
    assert(options_text(count, extension, output, Some(audio)) =~= head + ", "@ + audio + tail);
}

/// Writes the option file from its output and audio elements as they are to
/// stand in it, quotes included.
pub fn options_json_of_elements(num: usize, ext: &str, output: &str, audio: Option<&str>) -> (text:
    String)
    requires
        num != 0,
    ensures
        text@ == options_text(
            num as nat,
            ext@,
            output@,
            match audio {
                Some(element) => Some(element@),
                None => None,
            },
        ),
{
    let ghost audio_view: Option<Seq<char>> = match audio {
        Some(element) => Some(element@),
        None => None,
    };
    let ghost lead = seq![in_quotes("-o"@), output@] + audio_elements(audio_view) + seq![
        in_quotes("["@),
    ];
    let mut text = String::from_str("[");
    text.append("\"");
    text.append("-o");
    text.append("\"");
    text.append(", ");
    text.append(output);
    proof {
        lemma_comma_separated_pair(in_quotes("-o"@), output@);
        assert(text@ =~= "["@ + comma_separated(seq![in_quotes("-o"@), output@]));
    }
    if let Some(element) = audio {
        text.append(", ");
        text.append(element);
        proof {
            let pair = seq![in_quotes("-o"@), output@];
            lemma_comma_separated_push(pair, element@);
            assert(pair.push(element@) =~= pair + audio_elements(audio_view));
        }
    } else {
        assert(seq![in_quotes("-o"@), output@] + audio_elements(audio_view) =~= seq![
            in_quotes("-o"@),
            output@,
        ]);
    }
    assert(text@ =~= "["@ + comma_separated(
        seq![in_quotes("-o"@), output@] + audio_elements(audio_view),
    ));
    text.append(", ");
    text.append("\"");
    text.append("[");
    text.append("\"");
    proof {
        let before = seq![in_quotes("-o"@), output@] + audio_elements(audio_view);
        lemma_comma_separated_push(before, in_quotes("["@));
        assert(before.push(in_quotes("["@)) =~= lead);
        assert(text@ =~= "["@ + comma_separated(lead));
        assert(lead + chunk_elements(0, ext@) =~= lead);
    }
    let mut i: usize = 0;
    while i < num
        invariant
            i <= num,
            lead.len() > 0,
            text@ == "["@ + comma_separated(lead + chunk_elements(i as nat, ext@)),
        decreases num - i,
    {
        let index = decimal_text(i);
        text.append(", ");
        text.append("\"");
        text.append("encoded_chunk_");
        text.append(index.as_str());
        text.append(".");
        text.append(ext);
        text.append("\"");
        proof {
            let so_far = lead + chunk_elements(i as nat, ext@);
            let entry = in_quotes(chunk_name(i as nat, ext@));
            lemma_comma_separated_push(so_far, entry);
            assert(so_far.push(entry) =~= lead + chunk_elements((i + 1) as nat, ext@));
            assert(text@ =~= "["@ + comma_separated(so_far) + ", "@ + entry);
        }
        i += 1;
    }
    text.append(",");
    text.append("\"");
    text.append("]");
    text.append("\"");
    text.append("]");
    proof {
        let elements = option_elements(num as nat, ext@, output@, audio_view);
        assert(elements.drop_last() =~= lead + chunk_elements(num as nat, ext@));
        assert(text@ =~= rendered(elements));
    }
    text
}

/// Writes the option file for `num` chunks with the extension `ext`, the
/// output path `output` and, if there is one, the audio file `audio`. The two
/// paths are quoted as `Debug` formatting quotes a string.
pub fn mkvmerge_options_json(num: usize, ext: &str, output: &str, audio: Option<&str>) -> (text:
    String)
    requires
        num != 0,
    ensures
        text@ == quoted_options_text(
            num as nat,
            ext@,
            output@,
            match audio {
                Some(path) => Some(path@),
                None => None,
            },
        ),
{
    let output_element = debug_quote(output);
    match audio {
        Some(path) => {
            let audio_element = debug_quote(path);
            options_json_of_elements(
                num,
                ext,
                output_element.as_str(),
                Some(audio_element.as_str()),
            )
        },
        None => options_json_of_elements(num, ext, output_element.as_str(), None),
    }
}

} // verus!
