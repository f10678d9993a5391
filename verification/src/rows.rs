//! A fixed table of greetings, one per language.

use vstd::prelude::*;

verus! {

/// One greeting: the language it is in, and the greeting itself.
pub struct Row {
    /// The language the greeting is in.
    pub language: String,
    /// The greeting.
    pub message: String,
}

/// Builds one row from the two literals.
fn row(language: &str, message: &str) -> (r: Row)
    ensures
        r.language@ == language@,
        r.message@ == message@,
{
    Row { language: language.to_owned(), message: message.to_owned() }
}

/// The full table of greetings, in its fixed order.
pub fn get_rows() -> (rows: Vec<Row>)
    ensures
        rows@.len() == 22,
        rows@[0].language@ == "English"@ && rows@[0].message@ == "Hello"@,
        rows@[1].language@ == "French"@ && rows@[1].message@ == "Bonjour"@,
        rows@[2].language@ == "Spanish"@ && rows@[2].message@ == "Hola"@,
        rows@[3].language@ == "Russian"@ && rows@[3].message@ == "Zdravstvuyte"@,
        rows@[4].language@ == "Chinese"@ && rows@[4].message@ == "Nǐn hǎo"@,
        rows@[5].language@ == "Italian"@ && rows@[5].message@ == "Salve"@,
        rows@[6].language@ == "Japanese"@ && rows@[6].message@ == "Konnichiwa"@,
        rows@[7].language@ == "German"@ && rows@[7].message@ == "Guten Tag"@,
        rows@[8].language@ == "Portuguese"@ && rows@[8].message@ == "Olá"@,
        rows@[9].language@ == "Korean"@ && rows@[9].message@ == "Anyoung haseyo"@,
        rows@[10].language@ == "Arabic"@ && rows@[10].message@ == "Asalaam alaikum"@,
        rows@[11].language@ == "Danish"@ && rows@[11].message@ == "Goddag"@,
        rows@[12].language@ == "Swahili"@ && rows@[12].message@ == "Shikamoo"@,
        rows@[13].language@ == "Dutch"@ && rows@[13].message@ == "Goedendag"@,
        rows@[14].language@ == "Greek"@ && rows@[14].message@ == "Yassas"@,
        rows@[15].language@ == "Polish"@ && rows@[15].message@ == "Dzień dobry"@,
        rows@[16].language@ == "Indonesian"@ && rows@[16].message@ == "Selamat siang"@,
        rows@[17].language@ == "Hindi"@ && rows@[17].message@ == "Namaste, Namaskar"@,
        rows@[18].language@ == "Norwegian"@ && rows@[18].message@ == "God dag"@,
        rows@[19].language@ == "Turkish"@ && rows@[19].message@ == "Merhaba"@,
        rows@[20].language@ == "Hebrew"@ && rows@[20].message@ == "Shalom"@,
        rows@[21].language@ == "Swedish"@ && rows@[21].message@ == "God dag"@,
{
    let mut rows: Vec<Row> = Vec::new();
    rows.push(row("English", "Hello"));
    rows.push(row("French", "Bonjour"));
    rows.push(row("Spanish", "Hola"));
    rows.push(row("Russian", "Zdravstvuyte"));
    rows.push(row("Chinese", "Nǐn hǎo"));
    rows.push(row("Italian", "Salve"));
    rows.push(row("Japanese", "Konnichiwa"));
    rows.push(row("German", "Guten Tag"));
    rows.push(row("Portuguese", "Olá"));
    rows.push(row("Korean", "Anyoung haseyo"));
    rows.push(row("Arabic", "Asalaam alaikum"));
    rows.push(row("Danish", "Goddag"));
    rows.push(row("Swahili", "Shikamoo"));
    rows.push(row("Dutch", "Goedendag"));
    rows.push(row("Greek", "Yassas"));
    rows.push(row("Polish", "Dzień dobry"));
    rows.push(row("Indonesian", "Selamat siang"));
    rows.push(row("Hindi", "Namaste, Namaskar"));
    rows.push(row("Norwegian", "God dag"));
    rows.push(row("Turkish", "Merhaba"));
    rows.push(row("Hebrew", "Shalom"));
    rows.push(row("Swedish", "God dag"));
    rows
}

} // verus!
