use vstd::prelude::*;

verus! {

/// The JSON string literal that serde_json writes for a text.
pub uninterp spec fn json_quoted(s: Seq<char>) -> Seq<char>;

/// Relies on the `Display` of `serde_json::Value::String`: the text as a
/// quoted and escaped JSON string literal.
#[verifier::external_body]
fn quote_json(s: &str) -> (r: String)
    ensures
        r@ == json_quoted(s@),
{
    serde_json::Value::String(s.to_string()).to_string()
}

/// Rendered JSON values joined by commas.
pub open spec fn joined(parts: Seq<Seq<char>>) -> Seq<char>
    decreases parts.len(),
{
    if parts.len() == 0 {
        Seq::empty()
    } else if parts.len() == 1 {
        parts[0]
    } else {
        joined(parts.drop_last()) + ","@ + parts.last()
    }
}

/// A JSON array of rendered values.
pub open spec fn json_list(parts: Seq<Seq<char>>) -> Seq<char> {
    "["@ + joined(parts) + "]"@
}

/// A JSON array of strings.
pub open spec fn json_string_list(items: Seq<String>) -> Seq<char> {
    json_list(items.map_values(|s: String| json_quoted(s@)))
}

/// A JSON array of arrays of strings.
pub open spec fn json_string_table(rows: Seq<Vec<String>>) -> Seq<char> {
    json_list(rows.map_values(|row: Vec<String>| json_string_list(row@)))
}

/// The witness generator's input document over four canonical texts.
pub open spec fn input_document_text(
    prompt: Seq<char>,
    image: Seq<char>,
    author: Seq<char>,
    request_id: Seq<char>,
) -> Seq<char> {
    "{\"prompt\":\""@ + prompt + "\",\"image\":\""@ + image + "\",\"author\":\""@ + author
        + "\",\"requestId\":\""@ + request_id + "\"}"@
}

/// A Groth16 proof as the external prover writes it.
#[derive(Debug, Clone)]
pub struct ProofData {
    pub pi_a: Vec<String>,
    pub pi_b: Vec<Vec<String>>,
    pub pi_c: Vec<String>,
    pub protocol: String,
    pub curve: String,
}

/// The proof document handed to the external verifier.
pub open spec fn proof_document_text(proof: ProofData) -> Seq<char> {
    "{\"pi_a\":"@ + json_string_list(proof.pi_a@) + ",\"pi_b\":"@ + json_string_table(proof.pi_b@)
        + ",\"pi_c\":"@ + json_string_list(proof.pi_c@) + ",\"protocol\":"@ + json_quoted(
        proof.protocol@,
    ) + ",\"curve\":"@ + json_quoted(proof.curve@) + "}"@
}

/// Joins rendered JSON values into an array.
pub fn render_list(parts: &Vec<String>) -> (r: String)
    ensures
        r@ == json_list(parts@.map_values(|p: String| p@)),
{
    let mut out = String::new();
    out.append("[");
    let ghost views = parts@.map_values(|p: String| p@);
    let mut i: usize = 0;
    while i < parts.len()
        invariant
            0 <= i <= parts.len(),
            views == parts@.map_values(|p: String| p@),
            out@ == "["@ + joined(views.take(i as int)),
        decreases parts.len() - i,
    {
        if i > 0 {
            out.append(",");
        }
        out.append(parts[i].as_str());
        proof {
            let t = views.take(i + 1);
            assert(t.drop_last() =~= views.take(i as int));
            if i == 0 {
                assert(joined(views.take(0)) =~= Seq::<char>::empty());
                assert(joined(t) == t[0]);
            }
        }
        i = i + 1;
    }
    assert(views.take(parts.len() as int) =~= views);
    out.append("]");
    out
}

/// Renders strings as a JSON array of string literals.
pub fn render_string_list(items: &Vec<String>) -> (r: String)
    ensures
        r@ == json_string_list(items@),
{
    let mut quoted: Vec<String> = Vec::new();
    let mut i: usize = 0;
    while i < items.len()
        invariant
            0 <= i <= items.len(),
            quoted.len() == i,
            forall|j: int| 0 <= j < i ==> #[trigger] quoted[j]@ == json_quoted(items[j]@),
        decreases items.len() - i,
    {
        quoted.push(quote_json(items[i].as_str()));
        i = i + 1;
    }
    let r = render_list(&quoted);
    assert(quoted@.map_values(|p: String| p@) =~= items@.map_values(|s: String| json_quoted(s@)));
    r
}

/// Renders rows of strings as a JSON array of arrays.
pub fn render_string_table(rows: &Vec<Vec<String>>) -> (r: String)
    ensures
        r@ == json_string_table(rows@),
{
    let mut rendered: Vec<String> = Vec::new();
    let mut i: usize = 0;
    while i < rows.len()
        invariant
            0 <= i <= rows.len(),
            rendered.len() == i,
            forall|j: int| 0 <= j < i ==> #[trigger] rendered[j]@ == json_string_list(rows[j]@),
        decreases rows.len() - i,
    {
        rendered.push(render_string_list(&rows[i]));
        i = i + 1;
    }
    let r = render_list(&rendered);
    assert(rendered@.map_values(|p: String| p@) =~= rows@.map_values(
        |row: Vec<String>| json_string_list(row@),
    ));
    r
}

/// The input document `{prompt, image, author, requestId}` of four texts.
pub fn input_document(prompt: &str, image: &str, author: &str, request_id: &str) -> (r: String)
    ensures
        r@ == input_document_text(prompt@, image@, author@, request_id@),
{
    let mut out = String::new();
    out.append("{\"prompt\":\"");
    out.append(prompt);
    out.append("\",\"image\":\"");
    out.append(image);
    out.append("\",\"author\":\"");
    out.append(author);
    out.append("\",\"requestId\":\"");
    out.append(request_id);
    out.append("\"}");
    out
}

/// The proof document `{pi_a, pi_b, pi_c, protocol, curve}`.
pub fn proof_document(proof: &ProofData) -> (r: String)
    ensures
        r@ == proof_document_text(*proof),
{
    let mut out = String::new();
    out.append("{\"pi_a\":");
    out.append(render_string_list(&proof.pi_a).as_str());
    out.append(",\"pi_b\":");
    out.append(render_string_table(&proof.pi_b).as_str());
    out.append(",\"pi_c\":");
    out.append(render_string_list(&proof.pi_c).as_str());
    out.append(",\"protocol\":");
    out.append(quote_json(proof.protocol.as_str()).as_str());
    out.append(",\"curve\":");
    out.append(quote_json(proof.curve.as_str()).as_str());
    out.append("}");
    out
}

/// The public-signals document: a JSON array of the public inputs.
pub fn public_document(inputs: &Vec<String>) -> (r: String)
    ensures
        r@ == json_string_list(inputs@),
{
    render_string_list(inputs)
}

} // verus!
