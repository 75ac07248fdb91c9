use std::borrow::Cow;
use vstd::prelude::*;
use vstd::string::StringExecFns;

verus! {

/// The text that the benchmark copies and appends.
pub const WORD: &'static str = r#"
Lorem ipsum dolor sit amet consectetur adipisicing elit. Quia, eum? Ipsum nam, quasi ipsam nostrum dolorum repellat nobis
dolore, obcaecati natus numquam voluptatum consequatur est aliquid tempore repellendus distinctio inventore temporibus 
unde ullam, aut tenetur. Voluptas, exercitationem! Ab labore in esse quam error, officia ad culpa. Repudiandae veniam 
dolorem, dolorum nemo magnam nisi illo aliquid corporis suscipit eligendi doloribus fuga explicabo recusandae vel quos
illum doloremque voluptate, totam earum adipisci officia rem dolore molestiae molestias. Laboriosam, quam quo. 
Sed deleniti, explicabo, autem blanditiis aut quia eius optio ex debitis odit quidem, sit consequatur quaerat ipsum
commodi sint officiis voluptas vel. Commodi, soluta. Sit, dolorem autem? Quae dicta voluptate vero fugiat, eligendi
dignissimos ratione fuga, enim, esse aut harum molestiae officiis? Eius doloribus tenetur accusantium, similique 
autem itaque aut non deserunt maiores animi nostrum voluptatem, asperiores temporibus aliquid. Voluptate fugiat
facere quisquam debitis dolore architecto nobis deserunt tempore laborum ipsa nulla sed esse totam distinctio
neque iste molestiae ut optio, quo perspiciatis, blanditiis minima fugit tempora magni. Omnis dignissimos nam
dolores repellendus nemo harum ullam repudiandae sunt pariatur, voluptates, laudantium minima quasi autem et
illo est placeat sequi! Laborum doloribus tempora aliquam officiis iure esse, possimus, porro id nulla,
officia asperiores vel sint consectetur consequuntur blanditiis recusandae! Tenetur perspiciatis, magnam
non, consectetur commodi id laboriosam possimus ut earum exercitationem ipsam animi fugiat! Provident modi 
aliquam eligendi laborum magnam reiciendis quis sed nobis deserunt rerum voluptatibus necessitatibus, dolore
soluta et. Illum temporibus at repellat odio repudiandae. Placeat neque non nulla! Odio tempore odit sed
nostrum mollitia architecto reprehenderit eveniet necessitatibus, quo corporis impedit deleniti quis ipsam
earum ipsum voluptatum in, nulla consequuntur illo. Dolor sit dolorem aliquid officia autem aut voluptate
velit doloribus labore dolorum, dicta magni vel inventore enim repellat a
rchitecto veritatis facere quibusdam incidunt alias repudiandae quas similique vitae. Accusantium?
"#;

/// A view of `corpus` that shares it: nothing is copied.
pub fn construct_shared<'a>(corpus: &'a str) -> (r: Cow<'a, str>)
    ensures
        r == Cow::<'a, str>::Borrowed(corpus),
        r@ == corpus@,
{
    Cow::Borrowed(corpus)
}

/// A new buffer that holds a copy of `corpus`.
pub fn construct_owned(corpus: &str) -> (r: String)
    ensures
        r@ == corpus@,
{
    String::from_str(corpus)
}

/// Turns a copy-on-write value into an owned, mutable buffer with the same
/// text. A borrowed value is copied here; an owned one is handed over
/// as it is.
pub fn promote<'a>(value: Cow<'a, str>) -> (r: String)
    ensures
        r@ == value@,
        value matches Cow::Owned(s) ==> r == s,
{
    match value {
        Cow::Borrowed(text) => String::from_str(text),
        Cow::Owned(text) => text,
    }
}

/// Shares `corpus`, promotes the view to an owned buffer, and appends
/// `corpus` to it.
pub fn mutate_shared(corpus: &str) -> (r: String)
    ensures
        r@ == corpus@ + corpus@,
{
    let shared = construct_shared(corpus);
    let mut owned = promote(shared);
    owned.append(corpus);
    owned
}

/// Copies `corpus` into a new buffer and appends `corpus` to it.
pub fn mutate_owned(corpus: &str) -> (r: String)
    ensures
        r@ == corpus@ + corpus@,
{
    let mut owned = construct_owned(corpus);
    owned.append(corpus);
    owned
}

} // verus!
