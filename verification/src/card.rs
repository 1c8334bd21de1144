//! The card that goes out with a chart: its texts, its colour and the name
//! of the attached image.

use vstd::prelude::*;
use vstd::string::StringExecFns;
use crate::signal::Signal;
use crate::symbol::{upper, uppercased};

verus! {

/// A card, as plain values.
#[derive(Debug, PartialEq, Eq)]
pub struct Card {
    pub title: String,
    pub description: String,
    pub color: u32,
    /// The name under which the chart is attached.
    pub filename: String,
    /// The address by which the card shows the attached chart.
    pub image: String,
}

impl Card {
    /// Whether the card is the one of `symbol` and `signal`, in `color`,
    /// with `shouted` for the symbol in its title.
    pub open spec fn shows(
        self,
        symbol: Seq<char>,
        shouted: Seq<char>,
        signal: Signal,
        color: u32,
    ) -> bool {
        &&& self.title@ == shouted + " Analysis"@
        &&& self.description@ == "Current Signal: "@ + signal.name_spec()
        &&& self.color == color
        &&& self.filename@ == symbol + "_chart.png"@
        &&& self.image@ == "attachment://"@ + self.filename@
    }

    /// Whether the card is the one of `symbol` and `signal`, in `color`:
    /// its title holds the symbol in upper case.
    pub open spec fn describes(self, symbol: Seq<char>, signal: Signal, color: u32) -> bool {
        self.shows(symbol, uppercased(symbol), signal, color)
    }

    /// The card of `symbol` and `signal` in `color`, with `shouted` for the
    /// symbol in its title.
    pub fn compose(symbol: &str, shouted: &str, signal: Signal, color: u32) -> (card: Card)
        ensures
            card.shows(symbol@, shouted@, signal, color),
    {
        let filename = String::from_str(symbol).concat("_chart.png");
        let image = String::from_str("attachment://").concat(filename.as_str());
        Card {
            title: String::from_str(shouted).concat(" Analysis"),
            description: String::from_str("Current Signal: ").concat(signal.name()),
            color,
            filename,
            image,
        }
    }
}

fn card(symbol: &str, signal: Signal, color: u32) -> (card: Card)
    ensures
        card.describes(symbol@, signal, color),
{
    let shouted = upper(symbol);
    Card::compose(symbol, shouted.as_str(), signal, color)
}

/// The card of a hit found by a scan.
pub fn scan_card(symbol: &str, signal: Signal) -> (card: Card)
    ensures
        card.describes(symbol@, signal, signal.scan_color_spec()),
{
    card(symbol, signal, signal.scan_color())
}

/// The card of a chart that was asked for by symbol.
pub fn chart_card(symbol: &str, signal: Signal) -> (card: Card)
    ensures
        card.describes(symbol@, signal, signal.chart_color_spec()),
{
    card(symbol, signal, signal.chart_color())
}

} // verus!
