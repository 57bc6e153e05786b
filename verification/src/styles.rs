//! The spinner styles: each has a name, a frame interval and its frames.

use vstd::prelude::*;

use crate::text::str_eq;

verus! {

/// How many styles the table holds.
pub const STYLE_COUNT: usize = 55;

/// One spinner style: its name, the time each frame stays on screen (in
/// milliseconds) and the frames it cycles through.
pub struct Style {
    pub name: &'static str,
    pub interval_ms: u64,
    pub frames: &'static [&'static str],
}

/// What a style is, as plain sequences of characters.
pub ghost struct StyleView {
    pub name: Seq<char>,
    pub interval_ms: nat,
    pub frames: Seq<Seq<char>>,
}

impl View for Style {
    type V = StyleView;

    open spec fn view(&self) -> StyleView {
        StyleView {
            name: self.name@,
            interval_ms: self.interval_ms as nat,
            frames: self.frames@.map_values(|f: &str| f@),
        }
    }
}

/// A style that can be animated: a positive interval and at least one frame.
pub open spec fn animatable(s: StyleView) -> bool {
    s.interval_ms > 0 && s.frames.len() > 0
}

/// The style table, entry `i` (for `0 <= i < STYLE_COUNT`).
pub open spec fn spec_style(i: int) -> StyleView {
    if i == 0 {
        StyleView { name: "dots"@, interval_ms: 80, frames: seq!["⠋"@, "⠙"@, "⠹"@, "⠸"@, "⠼"@, "⠴"@, "⠦"@, "⠧"@, "⠇"@, "⠏"@] }
    } else if i == 1 {
        StyleView { name: "dots2"@, interval_ms: 80, frames: seq!["⣾"@, "⣽"@, "⣻"@, "⢿"@, "⡿"@, "⣟"@, "⣯"@, "⣷"@] }
    } else if i == 2 {
        StyleView { name: "dots3"@, interval_ms: 80, frames: seq!["⠋"@, "⠙"@, "⠚"@, "⠞"@, "⠖"@, "⠦"@, "⠴"@, "⠲"@, "⠳"@, "⠓"@] }
    } else if i == 3 {
        StyleView { name: "dots4"@, interval_ms: 80, frames: seq!["⠄"@, "⠆"@, "⠇"@, "⠋"@, "⠙"@, "⠸"@, "⠰"@, "⠠"@, "⠰"@, "⠸"@, "⠙"@, "⠋"@, "⠇"@, "⠆"@] }
    } else if i == 4 {
        StyleView { name: "dots5"@, interval_ms: 80, frames: seq!["⠋"@, "⠙"@, "⠚"@, "⠒"@, "⠂"@, "⠂"@, "⠒"@, "⠲"@, "⠴"@, "⠦"@, "⠖"@, "⠒"@, "⠐"@, "⠐"@, "⠒"@, "⠓"@, "⠋"@] }
    } else if i == 5 {
        StyleView { name: "dots6"@, interval_ms: 80, frames: seq!["⠁"@, "⠉"@, "⠙"@, "⠚"@, "⠒"@, "⠂"@, "⠂"@, "⠒"@, "⠲"@, "⠴"@, "⠤"@, "⠄"@, "⠄"@, "⠤"@, "⠴"@, "⠲"@, "⠒"@, "⠂"@, "⠂"@, "⠒"@, "⠚"@, "⠙"@, "⠉"@, "⠁"@] }
    } else if i == 6 {
        StyleView { name: "dots7"@, interval_ms: 80, frames: seq!["⠈"@, "⠉"@, "⠋"@, "⠓"@, "⠒"@, "⠐"@, "⠐"@, "⠒"@, "⠖"@, "⠦"@, "⠤"@, "⠠"@, "⠠"@, "⠤"@, "⠦"@, "⠖"@, "⠒"@, "⠐"@, "⠐"@, "⠒"@, "⠓"@, "⠋"@, "⠉"@, "⠈"@] }
    } else if i == 7 {
        StyleView { name: "dots8"@, interval_ms: 80, frames: seq!["⠁"@, "⠁"@, "⠉"@, "⠙"@, "⠚"@, "⠒"@, "⠂"@, "⠂"@, "⠒"@, "⠲"@, "⠴"@, "⠤"@, "⠄"@, "⠄"@, "⠤"@, "⠠"@, "⠠"@, "⠤"@, "⠦"@, "⠖"@, "⠒"@, "⠐"@, "⠐"@, "⠒"@, "⠓"@, "⠋"@, "⠉"@, "⠈"@, "⠈"@] }
    } else if i == 8 {
        StyleView { name: "dots9"@, interval_ms: 80, frames: seq!["⢹"@, "⢺"@, "⢼"@, "⣸"@, "⣇"@, "⡧"@, "⡗"@, "⡏"@] }
    } else if i == 9 {
        StyleView { name: "dots10"@, interval_ms: 80, frames: seq!["⢄"@, "⢂"@, "⢁"@, "⡁"@, "⡈"@, "⡐"@, "⡠"@] }
    } else if i == 10 {
        StyleView { name: "dots11"@, interval_ms: 100, frames: seq!["⠁"@, "⠂"@, "⠄"@, "⡀"@, "⢀"@, "⠠"@, "⠐"@, "⠈"@] }
    } else if i == 11 {
        StyleView { name: "dots12"@, interval_ms: 80, frames: seq!["⢀⠀"@, "⡀⠀"@, "⠄⠀"@, "⢂⠀"@, "⡂⠀"@, "⠅⠀"@, "⢃⠀"@, "⡃⠀"@, "⠍⠀"@, "⢋⠀"@, "⡋⠀"@, "⠍⠁"@, "⢋⠁"@, "⡋⠁"@, "⠍⠉"@, "⠋⠉"@, "⠋⠉"@, "⠉⠙"@, "⠉⠙"@, "⠉⠩"@, "⠈⢙"@, "⠈⡙"@, "⢈⠩"@, "⡀⢙"@, "⠄⡙"@, "⢂⠩"@, "⡂⢘"@, "⠅⡘"@, "⢃⠨"@, "⡃⢐"@, "⠍⡐"@, "⢋⠠"@, "⡋⢀"@, "⠍⡁"@, "⢋⠁"@, "⡋⠁"@, "⠍⠉"@, "⠋⠉"@, "⠋⠉"@, "⠉⠙"@, "⠉⠙"@, "⠉⠩"@, "⠈⢙"@, "⠈⡙"@, "⠈⠩"@, "⠀⢙"@, "⠀⡙"@, "⠀⠩"@, "⠀⢘"@, "⠀⡘"@, "⠀⠨"@, "⠀⢐"@, "⠀⡐"@, "⠀⠠"@, "⠀⢀"@, "⠀⡀"@] }
    } else if i == 12 {
        StyleView { name: "line"@, interval_ms: 130, frames: seq!["-"@, "\\"@, "|"@, "/"@] }
    } else if i == 13 {
        StyleView { name: "line2"@, interval_ms: 100, frames: seq!["⠂"@, "-"@, "–"@, "—"@, "–"@, "-"@] }
    } else if i == 14 {
        StyleView { name: "pipe"@, interval_ms: 100, frames: seq!["┤"@, "┘"@, "┴"@, "└"@, "├"@, "┌"@, "┬"@, "┐"@] }
    } else if i == 15 {
        StyleView { name: "simpleDots"@, interval_ms: 400, frames: seq![".  "@, ".. "@, "..."@, "   "@] }
    } else if i == 16 {
        StyleView { name: "simpleDotsScrolling"@, interval_ms: 200, frames: seq![".  "@, ".. "@, "..."@, " .."@, "  ."@, "   "@] }
    } else if i == 17 {
        StyleView { name: "star"@, interval_ms: 70, frames: seq!["✶"@, "✸"@, "✹"@, "✺"@, "✹"@, "✷"@] }
    } else if i == 18 {
        StyleView { name: "star2"@, interval_ms: 80, frames: seq!["+"@, "x"@, "*"@] }
    } else if i == 19 {
        StyleView { name: "flip"@, interval_ms: 70, frames: seq!["_"@, "_"@, "_"@, "-"@, "`"@, "`"@, "'"@, "´"@, "-"@, "_"@, "_"@, "_"@] }
    } else if i == 20 {
        StyleView { name: "hamburger"@, interval_ms: 100, frames: seq!["☱"@, "☲"@, "☴"@] }
    } else if i == 21 {
        StyleView { name: "growVertical"@, interval_ms: 120, frames: seq!["▁"@, "▃"@, "▄"@, "▅"@, "▆"@, "▇"@, "▆"@, "▅"@, "▄"@, "▃"@] }
    } else if i == 22 {
        StyleView { name: "growHorizontal"@, interval_ms: 120, frames: seq!["▏"@, "▎"@, "▍"@, "▌"@, "▋"@, "▊"@, "▉"@, "▊"@, "▋"@, "▌"@, "▍"@, "▎"@] }
    } else if i == 23 {
        StyleView { name: "balloon"@, interval_ms: 140, frames: seq![" "@, "."@, "o"@, "O"@, "@"@, "*"@, " "@] }
    } else if i == 24 {
        StyleView { name: "balloon2"@, interval_ms: 120, frames: seq!["."@, "o"@, "O"@, "°"@, "O"@, "o"@, "."@] }
    } else if i == 25 {
        StyleView { name: "noise"@, interval_ms: 140, frames: seq!["▓"@, "▒"@, "░"@] }
    } else if i == 26 {
        StyleView { name: "bounce"@, interval_ms: 100, frames: seq!["⠁"@, "⠂"@, "⠄"@, "⠂"@] }
    } else if i == 27 {
        StyleView { name: "boxBounce"@, interval_ms: 120, frames: seq!["▖"@, "▘"@, "▝"@, "▗"@] }
    } else if i == 28 {
        StyleView { name: "boxBounce2"@, interval_ms: 100, frames: seq!["▌"@, "▀"@, "▐"@, "▄"@] }
    } else if i == 29 {
        StyleView { name: "triangle"@, interval_ms: 50, frames: seq!["◢"@, "◣"@, "◤"@, "◥"@] }
    } else if i == 30 {
        StyleView { name: "arc"@, interval_ms: 100, frames: seq!["◜"@, "◠"@, "◝"@, "◞"@, "◡"@, "◟"@] }
    } else if i == 31 {
        StyleView { name: "circle"@, interval_ms: 120, frames: seq!["◡"@, "⊙"@, "◠"@] }
    } else if i == 32 {
        StyleView { name: "squareCorners"@, interval_ms: 180, frames: seq!["◰"@, "◳"@, "◲"@, "◱"@] }
    } else if i == 33 {
        StyleView { name: "circleQuarters"@, interval_ms: 120, frames: seq!["◴"@, "◷"@, "◶"@, "◵"@] }
    } else if i == 34 {
        StyleView { name: "circleHalves"@, interval_ms: 50, frames: seq!["◐"@, "◓"@, "◑"@, "◒"@] }
    } else if i == 35 {
        StyleView { name: "squish"@, interval_ms: 100, frames: seq!["╫"@, "╪"@] }
    } else if i == 36 {
        StyleView { name: "toggle"@, interval_ms: 250, frames: seq!["⊶"@, "⊷"@] }
    } else if i == 37 {
        StyleView { name: "toggle2"@, interval_ms: 80, frames: seq!["▫"@, "▪"@] }
    } else if i == 38 {
        StyleView { name: "toggle3"@, interval_ms: 120, frames: seq!["□"@, "■"@] }
    } else if i == 39 {
        StyleView { name: "toggle4"@, interval_ms: 100, frames: seq!["■"@, "□"@, "▪"@, "▫"@] }
    } else if i == 40 {
        StyleView { name: "toggle5"@, interval_ms: 100, frames: seq!["▮"@, "▯"@] }
    } else if i == 41 {
        StyleView { name: "toggle6"@, interval_ms: 300, frames: seq!["ဝ"@, "၀"@] }
    } else if i == 42 {
        StyleView { name: "toggle7"@, interval_ms: 80, frames: seq!["⦾"@, "⦿"@] }
    } else if i == 43 {
        StyleView { name: "toggle8"@, interval_ms: 100, frames: seq!["◍"@, "◌"@] }
    } else if i == 44 {
        StyleView { name: "toggle9"@, interval_ms: 100, frames: seq!["◉"@, "◎"@] }
    } else if i == 45 {
        StyleView { name: "toggle10"@, interval_ms: 100, frames: seq!["㊂"@, "㊀"@, "㊁"@] }
    } else if i == 46 {
        StyleView { name: "toggle11"@, interval_ms: 50, frames: seq!["⧇"@, "⧆"@] }
    } else if i == 47 {
        StyleView { name: "toggle12"@, interval_ms: 120, frames: seq!["☗"@, "☖"@] }
    } else if i == 48 {
        StyleView { name: "toggle13"@, interval_ms: 80, frames: seq!["="@, "*"@, "-"@] }
    } else if i == 49 {
        StyleView { name: "arrow"@, interval_ms: 100, frames: seq!["←"@, "↖"@, "↑"@, "↗"@, "→"@, "↘"@, "↓"@, "↙"@] }
    } else if i == 50 {
        StyleView { name: "arrow2"@, interval_ms: 120, frames: seq!["▹▹▹▹▹"@, "▸▹▹▹▹"@, "▹▸▹▹▹"@, "▹▹▸▹▹"@, "▹▹▹▸▹"@, "▹▹▹▹▸"@] }
    } else if i == 51 {
        StyleView { name: "bouncingBar"@, interval_ms: 80, frames: seq!["[    ]"@, "[   =]"@, "[  ==]"@, "[ ===]"@, "[====]"@, "[=== ]"@, "[==  ]"@, "[=   ]"@] }
    } else if i == 52 {
        StyleView { name: "bouncingBall"@, interval_ms: 80, frames: seq!["( ●    )"@, "(  ●   )"@, "(   ●  )"@, "(    ● )"@, "(     ●)"@, "(    ● )"@, "(   ●  )"@, "(  ●   )"@, "( ●    )"@, "(●     )"@] }
    } else if i == 53 {
        StyleView { name: "pong"@, interval_ms: 80, frames: seq!["▐⠂       ▌"@, "▐⠈       ▌"@, "▐ ⠂      ▌"@, "▐ ⠠      ▌"@, "▐  ⡀     ▌"@, "▐  ⠠     ▌"@, "▐   ⠂    ▌"@, "▐   ⠈    ▌"@, "▐    ⠂   ▌"@, "▐    ⠠   ▌"@, "▐     ⡀  ▌"@, "▐     ⠠  ▌"@, "▐      ⠂ ▌"@, "▐      ⠈ ▌"@, "▐       ⠂▌"@, "▐       ⠠▌"@, "▐       ⡀▌"@, "▐      ⠠ ▌"@, "▐      ⠂ ▌"@, "▐     ⠈  ▌"@, "▐     ⠂  ▌"@, "▐    ⠠   ▌"@, "▐    ⡀   ▌"@, "▐   ⠠    ▌"@, "▐   ⠂    ▌"@, "▐  ⠈     ▌"@, "▐  ⠂     ▌"@, "▐ ⠠      ▌"@, "▐ ⡀      ▌"@, "▐⠠       ▌"@] }
    } else {
        StyleView { name: "shark"@, interval_ms: 120, frames: seq!["▐|\\____________▌"@, "▐_|\\___________▌"@, "▐__|\\__________▌"@, "▐___|\\_________▌"@, "▐____|\\________▌"@, "▐_____|\\_______▌"@, "▐______|\\______▌"@, "▐_______|\\_____▌"@, "▐________|\\____▌"@, "▐_________|\\___▌"@, "▐__________|\\__▌"@, "▐___________|\\_▌"@, "▐____________|\\▌"@, "▐____________/|▌"@, "▐___________/|_▌"@, "▐__________/|__▌"@, "▐_________/|___▌"@, "▐________/|____▌"@, "▐_______/|_____▌"@, "▐______/|______▌"@, "▐_____/|_______▌"@, "▐____/|________▌"@, "▐___/|_________▌"@, "▐__/|__________▌"@, "▐_/|___________▌"@, "▐/|____________▌"@] }
    }
}

/// Whether `name` names a style of the table.
pub open spec fn is_style_name(name: Seq<char>) -> bool {
    exists|i: int| 0 <= i < STYLE_COUNT && #[trigger] spec_style(i).name == name
}

/// A short fingerprint of a name: its length, its first and its last
/// character. The names of the table all differ in it.
pub open spec fn name_key(name: Seq<char>) -> (nat, char, char) {
    (name.len(), name[0], name[name.len() - 1])
}

/// The place in the table of the style whose name has fingerprint `key`.
pub open spec fn index_of_key(key: (nat, char, char)) -> int {
    if key == (4nat, 'd', 's') {
        0
    } else if key == (5nat, 'd', '2') {
        1
    } else if key == (5nat, 'd', '3') {
        2
    } else if key == (5nat, 'd', '4') {
        3
    } else if key == (5nat, 'd', '5') {
        4
    } else if key == (5nat, 'd', '6') {
        5
    } else if key == (5nat, 'd', '7') {
        6
    } else if key == (5nat, 'd', '8') {
        7
    } else if key == (5nat, 'd', '9') {
        8
    } else if key == (6nat, 'd', '0') {
        9
    } else if key == (6nat, 'd', '1') {
        10
    } else if key == (6nat, 'd', '2') {
        11
    } else if key == (4nat, 'l', 'e') {
        12
    } else if key == (5nat, 'l', '2') {
        13
    } else if key == (4nat, 'p', 'e') {
        14
    } else if key == (10nat, 's', 's') {
        15
    } else if key == (19nat, 's', 'g') {
        16
    } else if key == (4nat, 's', 'r') {
        17
    } else if key == (5nat, 's', '2') {
        18
    } else if key == (4nat, 'f', 'p') {
        19
    } else if key == (9nat, 'h', 'r') {
        20
    } else if key == (12nat, 'g', 'l') {
        21
    } else if key == (14nat, 'g', 'l') {
        22
    } else if key == (7nat, 'b', 'n') {
        23
    } else if key == (8nat, 'b', '2') {
        24
    } else if key == (5nat, 'n', 'e') {
        25
    } else if key == (6nat, 'b', 'e') {
        26
    } else if key == (9nat, 'b', 'e') {
        27
    } else if key == (10nat, 'b', '2') {
        28
    } else if key == (8nat, 't', 'e') {
        29
    } else if key == (3nat, 'a', 'c') {
        30
    } else if key == (6nat, 'c', 'e') {
        31
    } else if key == (13nat, 's', 's') {
        32
    } else if key == (14nat, 'c', 's') {
        33
    } else if key == (12nat, 'c', 's') {
        34
    } else if key == (6nat, 's', 'h') {
        35
    } else if key == (6nat, 't', 'e') {
        36
    } else if key == (7nat, 't', '2') {
        37
    } else if key == (7nat, 't', '3') {
        38
    } else if key == (7nat, 't', '4') {
        39
    } else if key == (7nat, 't', '5') {
        40
    } else if key == (7nat, 't', '6') {
        41
    } else if key == (7nat, 't', '7') {
        42
    } else if key == (7nat, 't', '8') {
        43
    } else if key == (7nat, 't', '9') {
        44
    } else if key == (8nat, 't', '0') {
        45
    } else if key == (8nat, 't', '1') {
        46
    } else if key == (8nat, 't', '2') {
        47
    } else if key == (8nat, 't', '3') {
        48
    } else if key == (5nat, 'a', 'w') {
        49
    } else if key == (6nat, 'a', '2') {
        50
    } else if key == (11nat, 'b', 'r') {
        51
    } else if key == (12nat, 'b', 'l') {
        52
    } else if key == (4nat, 'p', 'g') {
        53
    } else {
        54
    }
}

/// The fingerprint of the name at `i` leads back to `i`.
proof fn lemma_key_decodes(i: int)
    requires
        0 <= i < STYLE_COUNT,
    ensures
        index_of_key(name_key(spec_style(i).name)) == i,
{
    if i == 0 {
        reveal_strlit("dots");
    } else if i == 1 {
        reveal_strlit("dots2");
    } else if i == 2 {
        reveal_strlit("dots3");
    } else if i == 3 {
        reveal_strlit("dots4");
    } else if i == 4 {
        reveal_strlit("dots5");
    } else if i == 5 {
        reveal_strlit("dots6");
    } else if i == 6 {
        reveal_strlit("dots7");
    } else if i == 7 {
        reveal_strlit("dots8");
    } else if i == 8 {
        reveal_strlit("dots9");
    } else if i == 9 {
        reveal_strlit("dots10");
    } else if i == 10 {
        reveal_strlit("dots11");
    } else if i == 11 {
        reveal_strlit("dots12");
    } else if i == 12 {
        reveal_strlit("line");
    } else if i == 13 {
        reveal_strlit("line2");
    } else if i == 14 {
        reveal_strlit("pipe");
    } else if i == 15 {
        reveal_strlit("simpleDots");
    } else if i == 16 {
        reveal_strlit("simpleDotsScrolling");
    } else if i == 17 {
        reveal_strlit("star");
    } else if i == 18 {
        reveal_strlit("star2");
    } else if i == 19 {
        reveal_strlit("flip");
    } else if i == 20 {
        reveal_strlit("hamburger");
    } else if i == 21 {
        reveal_strlit("growVertical");
    } else if i == 22 {
        reveal_strlit("growHorizontal");
    } else if i == 23 {
        reveal_strlit("balloon");
    } else if i == 24 {
        reveal_strlit("balloon2");
    } else if i == 25 {
        reveal_strlit("noise");
    } else if i == 26 {
        reveal_strlit("bounce");
    } else if i == 27 {
        reveal_strlit("boxBounce");
    } else if i == 28 {
        reveal_strlit("boxBounce2");
    } else if i == 29 {
        reveal_strlit("triangle");
    } else if i == 30 {
        reveal_strlit("arc");
    } else if i == 31 {
        reveal_strlit("circle");
    } else if i == 32 {
        reveal_strlit("squareCorners");
    } else if i == 33 {
        reveal_strlit("circleQuarters");
    } else if i == 34 {
        reveal_strlit("circleHalves");
    } else if i == 35 {
        reveal_strlit("squish");
    } else if i == 36 {
        reveal_strlit("toggle");
    } else if i == 37 {
        reveal_strlit("toggle2");
    } else if i == 38 {
        reveal_strlit("toggle3");
    } else if i == 39 {
        reveal_strlit("toggle4");
    } else if i == 40 {
        reveal_strlit("toggle5");
    } else if i == 41 {
        reveal_strlit("toggle6");
    } else if i == 42 {
        reveal_strlit("toggle7");
    } else if i == 43 {
        reveal_strlit("toggle8");
    } else if i == 44 {
        reveal_strlit("toggle9");
    } else if i == 45 {
        reveal_strlit("toggle10");
    } else if i == 46 {
        reveal_strlit("toggle11");
    } else if i == 47 {
        reveal_strlit("toggle12");
    } else if i == 48 {
        reveal_strlit("toggle13");
    } else if i == 49 {
        reveal_strlit("arrow");
    } else if i == 50 {
        reveal_strlit("arrow2");
    } else if i == 51 {
        reveal_strlit("bouncingBar");
    } else if i == 52 {
        reveal_strlit("bouncingBall");
    } else if i == 53 {
        reveal_strlit("pong");
    } else {
        reveal_strlit("shark");
    }
}

/// No two styles of the table share a name.
pub proof fn lemma_style_names_distinct(i: int, j: int)
    requires
        0 <= i < STYLE_COUNT,
        0 <= j < STYLE_COUNT,
        i != j,
    ensures
        spec_style(i).name != spec_style(j).name,
{
    lemma_key_decodes(i);
    lemma_key_decodes(j);
}

/// The names of the table, in order.
pub open spec fn style_names() -> Seq<Seq<char>> {
    Seq::new(STYLE_COUNT as nat, |i: int| spec_style(i).name)
}

/// The names that name a style are exactly the table's 55 names, each once:
/// they make a set of 55 elements.
pub proof fn lemma_style_name_set()
    ensures
        style_names().no_duplicates(),
        style_names().to_set() == Set::new(|n: Seq<char>| is_style_name(n)),
        style_names().to_set().len() == STYLE_COUNT,
{
    assert forall|i: int, j: int|
        0 <= i < style_names().len() && 0 <= j < style_names().len() && i != j implies style_names()[i]
        != style_names()[j] by {
        lemma_style_names_distinct(i, j);
    }
    style_names().unique_seq_to_set();
    assert forall|n: Seq<char>| style_names().to_set().contains(n) <==> is_style_name(n) by {
        if is_style_name(n) {
            let i = choose|i: int| 0 <= i < STYLE_COUNT && #[trigger] spec_style(i).name == n;
            assert(style_names()[i] == n);
        }
        if style_names().to_set().contains(n) {
            let i = choose|i: int| 0 <= i < style_names().len() && style_names()[i] == n;
            assert(spec_style(i).name == n);
        }
    }
    assert(style_names().to_set() =~= Set::new(|n: Seq<char>| is_style_name(n)));
}

/// The table, entry by entry: the 55 styles in order, each with its name,
/// its frame interval in milliseconds and its frames.
pub proof fn lemma_style_table()
    ensures
        spec_style(0) == (StyleView { name: "dots"@, interval_ms: 80, frames: seq!["⠋"@, "⠙"@, "⠹"@, "⠸"@, "⠼"@, "⠴"@, "⠦"@, "⠧"@, "⠇"@, "⠏"@] }),
        spec_style(1) == (StyleView { name: "dots2"@, interval_ms: 80, frames: seq!["⣾"@, "⣽"@, "⣻"@, "⢿"@, "⡿"@, "⣟"@, "⣯"@, "⣷"@] }),
        spec_style(2) == (StyleView { name: "dots3"@, interval_ms: 80, frames: seq!["⠋"@, "⠙"@, "⠚"@, "⠞"@, "⠖"@, "⠦"@, "⠴"@, "⠲"@, "⠳"@, "⠓"@] }),
        spec_style(3) == (StyleView { name: "dots4"@, interval_ms: 80, frames: seq!["⠄"@, "⠆"@, "⠇"@, "⠋"@, "⠙"@, "⠸"@, "⠰"@, "⠠"@, "⠰"@, "⠸"@, "⠙"@, "⠋"@, "⠇"@, "⠆"@] }),
        spec_style(4) == (StyleView { name: "dots5"@, interval_ms: 80, frames: seq!["⠋"@, "⠙"@, "⠚"@, "⠒"@, "⠂"@, "⠂"@, "⠒"@, "⠲"@, "⠴"@, "⠦"@, "⠖"@, "⠒"@, "⠐"@, "⠐"@, "⠒"@, "⠓"@, "⠋"@] }),
        spec_style(5) == (StyleView { name: "dots6"@, interval_ms: 80, frames: seq!["⠁"@, "⠉"@, "⠙"@, "⠚"@, "⠒"@, "⠂"@, "⠂"@, "⠒"@, "⠲"@, "⠴"@, "⠤"@, "⠄"@, "⠄"@, "⠤"@, "⠴"@, "⠲"@, "⠒"@, "⠂"@, "⠂"@, "⠒"@, "⠚"@, "⠙"@, "⠉"@, "⠁"@] }),
        spec_style(6) == (StyleView { name: "dots7"@, interval_ms: 80, frames: seq!["⠈"@, "⠉"@, "⠋"@, "⠓"@, "⠒"@, "⠐"@, "⠐"@, "⠒"@, "⠖"@, "⠦"@, "⠤"@, "⠠"@, "⠠"@, "⠤"@, "⠦"@, "⠖"@, "⠒"@, "⠐"@, "⠐"@, "⠒"@, "⠓"@, "⠋"@, "⠉"@, "⠈"@] }),
        spec_style(7) == (StyleView { name: "dots8"@, interval_ms: 80, frames: seq!["⠁"@, "⠁"@, "⠉"@, "⠙"@, "⠚"@, "⠒"@, "⠂"@, "⠂"@, "⠒"@, "⠲"@, "⠴"@, "⠤"@, "⠄"@, "⠄"@, "⠤"@, "⠠"@, "⠠"@, "⠤"@, "⠦"@, "⠖"@, "⠒"@, "⠐"@, "⠐"@, "⠒"@, "⠓"@, "⠋"@, "⠉"@, "⠈"@, "⠈"@] }),
        spec_style(8) == (StyleView { name: "dots9"@, interval_ms: 80, frames: seq!["⢹"@, "⢺"@, "⢼"@, "⣸"@, "⣇"@, "⡧"@, "⡗"@, "⡏"@] }),
        spec_style(9) == (StyleView { name: "dots10"@, interval_ms: 80, frames: seq!["⢄"@, "⢂"@, "⢁"@, "⡁"@, "⡈"@, "⡐"@, "⡠"@] }),
        spec_style(10) == (StyleView { name: "dots11"@, interval_ms: 100, frames: seq!["⠁"@, "⠂"@, "⠄"@, "⡀"@, "⢀"@, "⠠"@, "⠐"@, "⠈"@] }),
        spec_style(11) == (StyleView { name: "dots12"@, interval_ms: 80, frames: seq!["⢀⠀"@, "⡀⠀"@, "⠄⠀"@, "⢂⠀"@, "⡂⠀"@, "⠅⠀"@, "⢃⠀"@, "⡃⠀"@, "⠍⠀"@, "⢋⠀"@, "⡋⠀"@, "⠍⠁"@, "⢋⠁"@, "⡋⠁"@, "⠍⠉"@, "⠋⠉"@, "⠋⠉"@, "⠉⠙"@, "⠉⠙"@, "⠉⠩"@, "⠈⢙"@, "⠈⡙"@, "⢈⠩"@, "⡀⢙"@, "⠄⡙"@, "⢂⠩"@, "⡂⢘"@, "⠅⡘"@, "⢃⠨"@, "⡃⢐"@, "⠍⡐"@, "⢋⠠"@, "⡋⢀"@, "⠍⡁"@, "⢋⠁"@, "⡋⠁"@, "⠍⠉"@, "⠋⠉"@, "⠋⠉"@, "⠉⠙"@, "⠉⠙"@, "⠉⠩"@, "⠈⢙"@, "⠈⡙"@, "⠈⠩"@, "⠀⢙"@, "⠀⡙"@, "⠀⠩"@, "⠀⢘"@, "⠀⡘"@, "⠀⠨"@, "⠀⢐"@, "⠀⡐"@, "⠀⠠"@, "⠀⢀"@, "⠀⡀"@] }),
        spec_style(12) == (StyleView { name: "line"@, interval_ms: 130, frames: seq!["-"@, "\\"@, "|"@, "/"@] }),
        spec_style(13) == (StyleView { name: "line2"@, interval_ms: 100, frames: seq!["⠂"@, "-"@, "–"@, "—"@, "–"@, "-"@] }),
        spec_style(14) == (StyleView { name: "pipe"@, interval_ms: 100, frames: seq!["┤"@, "┘"@, "┴"@, "└"@, "├"@, "┌"@, "┬"@, "┐"@] }),
        spec_style(15) == (StyleView { name: "simpleDots"@, interval_ms: 400, frames: seq![".  "@, ".. "@, "..."@, "   "@] }),
        spec_style(16) == (StyleView { name: "simpleDotsScrolling"@, interval_ms: 200, frames: seq![".  "@, ".. "@, "..."@, " .."@, "  ."@, "   "@] }),
        spec_style(17) == (StyleView { name: "star"@, interval_ms: 70, frames: seq!["✶"@, "✸"@, "✹"@, "✺"@, "✹"@, "✷"@] }),
        spec_style(18) == (StyleView { name: "star2"@, interval_ms: 80, frames: seq!["+"@, "x"@, "*"@] }),
        spec_style(19) == (StyleView { name: "flip"@, interval_ms: 70, frames: seq!["_"@, "_"@, "_"@, "-"@, "`"@, "`"@, "'"@, "´"@, "-"@, "_"@, "_"@, "_"@] }),
        spec_style(20) == (StyleView { name: "hamburger"@, interval_ms: 100, frames: seq!["☱"@, "☲"@, "☴"@] }),
        spec_style(21) == (StyleView { name: "growVertical"@, interval_ms: 120, frames: seq!["▁"@, "▃"@, "▄"@, "▅"@, "▆"@, "▇"@, "▆"@, "▅"@, "▄"@, "▃"@] }),
        spec_style(22) == (StyleView { name: "growHorizontal"@, interval_ms: 120, frames: seq!["▏"@, "▎"@, "▍"@, "▌"@, "▋"@, "▊"@, "▉"@, "▊"@, "▋"@, "▌"@, "▍"@, "▎"@] }),
        spec_style(23) == (StyleView { name: "balloon"@, interval_ms: 140, frames: seq![" "@, "."@, "o"@, "O"@, "@"@, "*"@, " "@] }),
        spec_style(24) == (StyleView { name: "balloon2"@, interval_ms: 120, frames: seq!["."@, "o"@, "O"@, "°"@, "O"@, "o"@, "."@] }),
        spec_style(25) == (StyleView { name: "noise"@, interval_ms: 140, frames: seq!["▓"@, "▒"@, "░"@] }),
        spec_style(26) == (StyleView { name: "bounce"@, interval_ms: 100, frames: seq!["⠁"@, "⠂"@, "⠄"@, "⠂"@] }),
        spec_style(27) == (StyleView { name: "boxBounce"@, interval_ms: 120, frames: seq!["▖"@, "▘"@, "▝"@, "▗"@] }),
        spec_style(28) == (StyleView { name: "boxBounce2"@, interval_ms: 100, frames: seq!["▌"@, "▀"@, "▐"@, "▄"@] }),
        spec_style(29) == (StyleView { name: "triangle"@, interval_ms: 50, frames: seq!["◢"@, "◣"@, "◤"@, "◥"@] }),
        spec_style(30) == (StyleView { name: "arc"@, interval_ms: 100, frames: seq!["◜"@, "◠"@, "◝"@, "◞"@, "◡"@, "◟"@] }),
        spec_style(31) == (StyleView { name: "circle"@, interval_ms: 120, frames: seq!["◡"@, "⊙"@, "◠"@] }),
        spec_style(32) == (StyleView { name: "squareCorners"@, interval_ms: 180, frames: seq!["◰"@, "◳"@, "◲"@, "◱"@] }),
        spec_style(33) == (StyleView { name: "circleQuarters"@, interval_ms: 120, frames: seq!["◴"@, "◷"@, "◶"@, "◵"@] }),
        spec_style(34) == (StyleView { name: "circleHalves"@, interval_ms: 50, frames: seq!["◐"@, "◓"@, "◑"@, "◒"@] }),
        spec_style(35) == (StyleView { name: "squish"@, interval_ms: 100, frames: seq!["╫"@, "╪"@] }),
        spec_style(36) == (StyleView { name: "toggle"@, interval_ms: 250, frames: seq!["⊶"@, "⊷"@] }),
        spec_style(37) == (StyleView { name: "toggle2"@, interval_ms: 80, frames: seq!["▫"@, "▪"@] }),
        spec_style(38) == (StyleView { name: "toggle3"@, interval_ms: 120, frames: seq!["□"@, "■"@] }),
        spec_style(39) == (StyleView { name: "toggle4"@, interval_ms: 100, frames: seq!["■"@, "□"@, "▪"@, "▫"@] }),
        spec_style(40) == (StyleView { name: "toggle5"@, interval_ms: 100, frames: seq!["▮"@, "▯"@] }),
        spec_style(41) == (StyleView { name: "toggle6"@, interval_ms: 300, frames: seq!["ဝ"@, "၀"@] }),
        spec_style(42) == (StyleView { name: "toggle7"@, interval_ms: 80, frames: seq!["⦾"@, "⦿"@] }),
        spec_style(43) == (StyleView { name: "toggle8"@, interval_ms: 100, frames: seq!["◍"@, "◌"@] }),
        spec_style(44) == (StyleView { name: "toggle9"@, interval_ms: 100, frames: seq!["◉"@, "◎"@] }),
        spec_style(45) == (StyleView { name: "toggle10"@, interval_ms: 100, frames: seq!["㊂"@, "㊀"@, "㊁"@] }),
        spec_style(46) == (StyleView { name: "toggle11"@, interval_ms: 50, frames: seq!["⧇"@, "⧆"@] }),
        spec_style(47) == (StyleView { name: "toggle12"@, interval_ms: 120, frames: seq!["☗"@, "☖"@] }),
        spec_style(48) == (StyleView { name: "toggle13"@, interval_ms: 80, frames: seq!["="@, "*"@, "-"@] }),
        spec_style(49) == (StyleView { name: "arrow"@, interval_ms: 100, frames: seq!["←"@, "↖"@, "↑"@, "↗"@, "→"@, "↘"@, "↓"@, "↙"@] }),
        spec_style(50) == (StyleView { name: "arrow2"@, interval_ms: 120, frames: seq!["▹▹▹▹▹"@, "▸▹▹▹▹"@, "▹▸▹▹▹"@, "▹▹▸▹▹"@, "▹▹▹▸▹"@, "▹▹▹▹▸"@] }),
        spec_style(51) == (StyleView { name: "bouncingBar"@, interval_ms: 80, frames: seq!["[    ]"@, "[   =]"@, "[  ==]"@, "[ ===]"@, "[====]"@, "[=== ]"@, "[==  ]"@, "[=   ]"@] }),
        spec_style(52) == (StyleView { name: "bouncingBall"@, interval_ms: 80, frames: seq!["( ●    )"@, "(  ●   )"@, "(   ●  )"@, "(    ● )"@, "(     ●)"@, "(    ● )"@, "(   ●  )"@, "(  ●   )"@, "( ●    )"@, "(●     )"@] }),
        spec_style(53) == (StyleView { name: "pong"@, interval_ms: 80, frames: seq!["▐⠂       ▌"@, "▐⠈       ▌"@, "▐ ⠂      ▌"@, "▐ ⠠      ▌"@, "▐  ⡀     ▌"@, "▐  ⠠     ▌"@, "▐   ⠂    ▌"@, "▐   ⠈    ▌"@, "▐    ⠂   ▌"@, "▐    ⠠   ▌"@, "▐     ⡀  ▌"@, "▐     ⠠  ▌"@, "▐      ⠂ ▌"@, "▐      ⠈ ▌"@, "▐       ⠂▌"@, "▐       ⠠▌"@, "▐       ⡀▌"@, "▐      ⠠ ▌"@, "▐      ⠂ ▌"@, "▐     ⠈  ▌"@, "▐     ⠂  ▌"@, "▐    ⠠   ▌"@, "▐    ⡀   ▌"@, "▐   ⠠    ▌"@, "▐   ⠂    ▌"@, "▐  ⠈     ▌"@, "▐  ⠂     ▌"@, "▐ ⠠      ▌"@, "▐ ⡀      ▌"@, "▐⠠       ▌"@] }),
        spec_style(54) == (StyleView { name: "shark"@, interval_ms: 120, frames: seq!["▐|\\____________▌"@, "▐_|\\___________▌"@, "▐__|\\__________▌"@, "▐___|\\_________▌"@, "▐____|\\________▌"@, "▐_____|\\_______▌"@, "▐______|\\______▌"@, "▐_______|\\_____▌"@, "▐________|\\____▌"@, "▐_________|\\___▌"@, "▐__________|\\__▌"@, "▐___________|\\_▌"@, "▐____________|\\▌"@, "▐____________/|▌"@, "▐___________/|_▌"@, "▐__________/|__▌"@, "▐_________/|___▌"@, "▐________/|____▌"@, "▐_______/|_____▌"@, "▐______/|______▌"@, "▐_____/|_______▌"@, "▐____/|________▌"@, "▐___/|_________▌"@, "▐__/|__________▌"@, "▐_/|___________▌"@, "▐/|____________▌"@] }),
{
}

/// Every style moves: somewhere in its frames, a frame is followed by a
/// different one.
pub proof fn lemma_every_style_moves(i: int)
    requires
        0 <= i < STYLE_COUNT,
    ensures
        exists|j: int|
            0 <= j < spec_style(i).frames.len() - 1 && #[trigger] spec_style(i).frames[j]
                != spec_style(i).frames[j + 1],
{
    if i == 0 {
        reveal_strlit("⠋");
        reveal_strlit("⠙");
        assert("⠋"@[0] != "⠙"@[0]);
        assert(spec_style(0).frames[0] != spec_style(0).frames[1]);
    } else if i == 1 {
        reveal_strlit("⣾");
        reveal_strlit("⣽");
        assert("⣾"@[0] != "⣽"@[0]);
        assert(spec_style(1).frames[0] != spec_style(1).frames[1]);
    } else if i == 2 {
        reveal_strlit("⠋");
        reveal_strlit("⠙");
        assert("⠋"@[0] != "⠙"@[0]);
        assert(spec_style(2).frames[0] != spec_style(2).frames[1]);
    } else if i == 3 {
        reveal_strlit("⠄");
        reveal_strlit("⠆");
        assert("⠄"@[0] != "⠆"@[0]);
        assert(spec_style(3).frames[0] != spec_style(3).frames[1]);
    } else if i == 4 {
        reveal_strlit("⠋");
        reveal_strlit("⠙");
        assert("⠋"@[0] != "⠙"@[0]);
        assert(spec_style(4).frames[0] != spec_style(4).frames[1]);
    } else if i == 5 {
        reveal_strlit("⠁");
        reveal_strlit("⠉");
        assert("⠁"@[0] != "⠉"@[0]);
        assert(spec_style(5).frames[0] != spec_style(5).frames[1]);
    } else if i == 6 {
        reveal_strlit("⠈");
        reveal_strlit("⠉");
        assert("⠈"@[0] != "⠉"@[0]);
        assert(spec_style(6).frames[0] != spec_style(6).frames[1]);
    } else if i == 7 {
        reveal_strlit("⠁");
        reveal_strlit("⠉");
        assert("⠁"@[0] != "⠉"@[0]);
        assert(spec_style(7).frames[1] != spec_style(7).frames[2]);
    } else if i == 8 {
        reveal_strlit("⢹");
        reveal_strlit("⢺");
        assert("⢹"@[0] != "⢺"@[0]);
        assert(spec_style(8).frames[0] != spec_style(8).frames[1]);
    } else if i == 9 {
        reveal_strlit("⢄");
        reveal_strlit("⢂");
        assert("⢄"@[0] != "⢂"@[0]);
        assert(spec_style(9).frames[0] != spec_style(9).frames[1]);
    } else if i == 10 {
        reveal_strlit("⠁");
        reveal_strlit("⠂");
        assert("⠁"@[0] != "⠂"@[0]);
        assert(spec_style(10).frames[0] != spec_style(10).frames[1]);
    } else if i == 11 {
        reveal_strlit("⢀⠀");
        reveal_strlit("⡀⠀");
        assert("⢀⠀"@[0] != "⡀⠀"@[0]);
        assert(spec_style(11).frames[0] != spec_style(11).frames[1]);
    } else if i == 12 {
        reveal_strlit("-");
        reveal_strlit("\\");
        assert("-"@[0] != "\\"@[0]);
        assert(spec_style(12).frames[0] != spec_style(12).frames[1]);
    } else if i == 13 {
        reveal_strlit("⠂");
        reveal_strlit("-");
        assert("⠂"@[0] != "-"@[0]);
        assert(spec_style(13).frames[0] != spec_style(13).frames[1]);
    } else if i == 14 {
        reveal_strlit("┤");
        reveal_strlit("┘");
        assert("┤"@[0] != "┘"@[0]);
        assert(spec_style(14).frames[0] != spec_style(14).frames[1]);
    } else if i == 15 {
        reveal_strlit(".  ");
        reveal_strlit(".. ");
        assert(".  "@[1] != ".. "@[1]);
        assert(spec_style(15).frames[0] != spec_style(15).frames[1]);
    } else if i == 16 {
        reveal_strlit(".  ");
        reveal_strlit(".. ");
        assert(".  "@[1] != ".. "@[1]);
        assert(spec_style(16).frames[0] != spec_style(16).frames[1]);
    } else if i == 17 {
        reveal_strlit("✶");
        reveal_strlit("✸");
        assert("✶"@[0] != "✸"@[0]);
        assert(spec_style(17).frames[0] != spec_style(17).frames[1]);
    } else if i == 18 {
        reveal_strlit("+");
        reveal_strlit("x");
        assert("+"@[0] != "x"@[0]);
        assert(spec_style(18).frames[0] != spec_style(18).frames[1]);
    } else if i == 19 {
        reveal_strlit("_");
        reveal_strlit("-");
        assert("_"@[0] != "-"@[0]);
        assert(spec_style(19).frames[2] != spec_style(19).frames[3]);
    } else if i == 20 {
        reveal_strlit("☱");
        reveal_strlit("☲");
        assert("☱"@[0] != "☲"@[0]);
        assert(spec_style(20).frames[0] != spec_style(20).frames[1]);
    } else if i == 21 {
        reveal_strlit("▁");
        reveal_strlit("▃");
        assert("▁"@[0] != "▃"@[0]);
        assert(spec_style(21).frames[0] != spec_style(21).frames[1]);
    } else if i == 22 {
        reveal_strlit("▏");
        reveal_strlit("▎");
        assert("▏"@[0] != "▎"@[0]);
        assert(spec_style(22).frames[0] != spec_style(22).frames[1]);
    } else if i == 23 {
        reveal_strlit(" ");
        reveal_strlit(".");
        assert(" "@[0] != "."@[0]);
        assert(spec_style(23).frames[0] != spec_style(23).frames[1]);
    } else if i == 24 {
        reveal_strlit(".");
        reveal_strlit("o");
        assert("."@[0] != "o"@[0]);
        assert(spec_style(24).frames[0] != spec_style(24).frames[1]);
    } else if i == 25 {
        reveal_strlit("▓");
        reveal_strlit("▒");
        assert("▓"@[0] != "▒"@[0]);
        assert(spec_style(25).frames[0] != spec_style(25).frames[1]);
    } else if i == 26 {
        reveal_strlit("⠁");
        reveal_strlit("⠂");
        assert("⠁"@[0] != "⠂"@[0]);
        assert(spec_style(26).frames[0] != spec_style(26).frames[1]);
    } else if i == 27 {
        reveal_strlit("▖");
        reveal_strlit("▘");
        assert("▖"@[0] != "▘"@[0]);
        assert(spec_style(27).frames[0] != spec_style(27).frames[1]);
    } else if i == 28 {
        reveal_strlit("▌");
        reveal_strlit("▀");
        assert("▌"@[0] != "▀"@[0]);
        assert(spec_style(28).frames[0] != spec_style(28).frames[1]);
    } else if i == 29 {
        reveal_strlit("◢");
        reveal_strlit("◣");
        assert("◢"@[0] != "◣"@[0]);
        assert(spec_style(29).frames[0] != spec_style(29).frames[1]);
    } else if i == 30 {
        reveal_strlit("◜");
        reveal_strlit("◠");
        assert("◜"@[0] != "◠"@[0]);
        assert(spec_style(30).frames[0] != spec_style(30).frames[1]);
    } else if i == 31 {
        reveal_strlit("◡");
        reveal_strlit("⊙");
        assert("◡"@[0] != "⊙"@[0]);
        assert(spec_style(31).frames[0] != spec_style(31).frames[1]);
    } else if i == 32 {
        reveal_strlit("◰");
        reveal_strlit("◳");
        assert("◰"@[0] != "◳"@[0]);
        assert(spec_style(32).frames[0] != spec_style(32).frames[1]);
    } else if i == 33 {
        reveal_strlit("◴");
        reveal_strlit("◷");
        assert("◴"@[0] != "◷"@[0]);
        assert(spec_style(33).frames[0] != spec_style(33).frames[1]);
    } else if i == 34 {
        reveal_strlit("◐");
        reveal_strlit("◓");
        assert("◐"@[0] != "◓"@[0]);
        assert(spec_style(34).frames[0] != spec_style(34).frames[1]);
    } else if i == 35 {
        reveal_strlit("╫");
        reveal_strlit("╪");
        assert("╫"@[0] != "╪"@[0]);
        assert(spec_style(35).frames[0] != spec_style(35).frames[1]);
    } else if i == 36 {
        reveal_strlit("⊶");
        reveal_strlit("⊷");
        assert("⊶"@[0] != "⊷"@[0]);
        assert(spec_style(36).frames[0] != spec_style(36).frames[1]);
    } else if i == 37 {
        reveal_strlit("▫");
        reveal_strlit("▪");
        assert("▫"@[0] != "▪"@[0]);
        assert(spec_style(37).frames[0] != spec_style(37).frames[1]);
    } else if i == 38 {
        reveal_strlit("□");
        reveal_strlit("■");
        assert("□"@[0] != "■"@[0]);
        assert(spec_style(38).frames[0] != spec_style(38).frames[1]);
    } else if i == 39 {
        reveal_strlit("■");
        reveal_strlit("□");
        assert("■"@[0] != "□"@[0]);
        assert(spec_style(39).frames[0] != spec_style(39).frames[1]);
    } else if i == 40 {
        reveal_strlit("▮");
        reveal_strlit("▯");
        assert("▮"@[0] != "▯"@[0]);
        assert(spec_style(40).frames[0] != spec_style(40).frames[1]);
    } else if i == 41 {
        reveal_strlit("ဝ");
        reveal_strlit("၀");
        assert("ဝ"@[0] != "၀"@[0]);
        assert(spec_style(41).frames[0] != spec_style(41).frames[1]);
    } else if i == 42 {
        reveal_strlit("⦾");
        reveal_strlit("⦿");
        assert("⦾"@[0] != "⦿"@[0]);
        assert(spec_style(42).frames[0] != spec_style(42).frames[1]);
    } else if i == 43 {
        reveal_strlit("◍");
        reveal_strlit("◌");
        assert("◍"@[0] != "◌"@[0]);
        assert(spec_style(43).frames[0] != spec_style(43).frames[1]);
    } else if i == 44 {
        reveal_strlit("◉");
        reveal_strlit("◎");
        assert("◉"@[0] != "◎"@[0]);
        assert(spec_style(44).frames[0] != spec_style(44).frames[1]);
    } else if i == 45 {
        reveal_strlit("㊂");
        reveal_strlit("㊀");
        assert("㊂"@[0] != "㊀"@[0]);
        assert(spec_style(45).frames[0] != spec_style(45).frames[1]);
    } else if i == 46 {
        reveal_strlit("⧇");
        reveal_strlit("⧆");
        assert("⧇"@[0] != "⧆"@[0]);
        assert(spec_style(46).frames[0] != spec_style(46).frames[1]);
    } else if i == 47 {
        reveal_strlit("☗");
        reveal_strlit("☖");
        assert("☗"@[0] != "☖"@[0]);
        assert(spec_style(47).frames[0] != spec_style(47).frames[1]);
    } else if i == 48 {
        reveal_strlit("=");
        reveal_strlit("*");
        assert("="@[0] != "*"@[0]);
        assert(spec_style(48).frames[0] != spec_style(48).frames[1]);
    } else if i == 49 {
        reveal_strlit("←");
        reveal_strlit("↖");
        assert("←"@[0] != "↖"@[0]);
        assert(spec_style(49).frames[0] != spec_style(49).frames[1]);
    } else if i == 50 {
        reveal_strlit("▹▹▹▹▹");
        reveal_strlit("▸▹▹▹▹");
        assert("▹▹▹▹▹"@[0] != "▸▹▹▹▹"@[0]);
        assert(spec_style(50).frames[0] != spec_style(50).frames[1]);
    } else if i == 51 {
        reveal_strlit("[    ]");
        reveal_strlit("[   =]");
        assert("[    ]"@[4] != "[   =]"@[4]);
        assert(spec_style(51).frames[0] != spec_style(51).frames[1]);
    } else if i == 52 {
        reveal_strlit("( ●    )");
        reveal_strlit("(  ●   )");
        assert("( ●    )"@[2] != "(  ●   )"@[2]);
        assert(spec_style(52).frames[0] != spec_style(52).frames[1]);
    } else if i == 53 {
        reveal_strlit("▐⠂       ▌");
        reveal_strlit("▐⠈       ▌");
        assert("▐⠂       ▌"@[1] != "▐⠈       ▌"@[1]);
        assert(spec_style(53).frames[0] != spec_style(53).frames[1]);
    } else {
        reveal_strlit("▐|\\____________▌");
        reveal_strlit("▐_|\\___________▌");
        assert("▐|\\____________▌"@[1] != "▐_|\\___________▌"@[1]);
        assert(spec_style(54).frames[0] != spec_style(54).frames[1]);
    }
}

/// Entry `i` of the style table.
pub fn style_at(i: usize) -> (s: Style)
    requires
        i < STYLE_COUNT,
    ensures
        s@ == spec_style(i as int),
{
    let s = match i {
        0 => Style { name: "dots", interval_ms: 80, frames: &["⠋", "⠙", "⠹", "⠸", "⠼", "⠴", "⠦", "⠧", "⠇", "⠏"] },
        1 => Style { name: "dots2", interval_ms: 80, frames: &["⣾", "⣽", "⣻", "⢿", "⡿", "⣟", "⣯", "⣷"] },
        2 => Style { name: "dots3", interval_ms: 80, frames: &["⠋", "⠙", "⠚", "⠞", "⠖", "⠦", "⠴", "⠲", "⠳", "⠓"] },
        3 => Style { name: "dots4", interval_ms: 80, frames: &["⠄", "⠆", "⠇", "⠋", "⠙", "⠸", "⠰", "⠠", "⠰", "⠸", "⠙", "⠋", "⠇", "⠆"] },
        4 => Style { name: "dots5", interval_ms: 80, frames: &["⠋", "⠙", "⠚", "⠒", "⠂", "⠂", "⠒", "⠲", "⠴", "⠦", "⠖", "⠒", "⠐", "⠐", "⠒", "⠓", "⠋"] },
        5 => Style { name: "dots6", interval_ms: 80, frames: &["⠁", "⠉", "⠙", "⠚", "⠒", "⠂", "⠂", "⠒", "⠲", "⠴", "⠤", "⠄", "⠄", "⠤", "⠴", "⠲", "⠒", "⠂", "⠂", "⠒", "⠚", "⠙", "⠉", "⠁"] },
        6 => Style { name: "dots7", interval_ms: 80, frames: &["⠈", "⠉", "⠋", "⠓", "⠒", "⠐", "⠐", "⠒", "⠖", "⠦", "⠤", "⠠", "⠠", "⠤", "⠦", "⠖", "⠒", "⠐", "⠐", "⠒", "⠓", "⠋", "⠉", "⠈"] },
        7 => Style { name: "dots8", interval_ms: 80, frames: &["⠁", "⠁", "⠉", "⠙", "⠚", "⠒", "⠂", "⠂", "⠒", "⠲", "⠴", "⠤", "⠄", "⠄", "⠤", "⠠", "⠠", "⠤", "⠦", "⠖", "⠒", "⠐", "⠐", "⠒", "⠓", "⠋", "⠉", "⠈", "⠈"] },
        8 => Style { name: "dots9", interval_ms: 80, frames: &["⢹", "⢺", "⢼", "⣸", "⣇", "⡧", "⡗", "⡏"] },
        9 => Style { name: "dots10", interval_ms: 80, frames: &["⢄", "⢂", "⢁", "⡁", "⡈", "⡐", "⡠"] },
        10 => Style { name: "dots11", interval_ms: 100, frames: &["⠁", "⠂", "⠄", "⡀", "⢀", "⠠", "⠐", "⠈"] },
        11 => Style { name: "dots12", interval_ms: 80, frames: &["⢀⠀", "⡀⠀", "⠄⠀", "⢂⠀", "⡂⠀", "⠅⠀", "⢃⠀", "⡃⠀", "⠍⠀", "⢋⠀", "⡋⠀", "⠍⠁", "⢋⠁", "⡋⠁", "⠍⠉", "⠋⠉", "⠋⠉", "⠉⠙", "⠉⠙", "⠉⠩", "⠈⢙", "⠈⡙", "⢈⠩", "⡀⢙", "⠄⡙", "⢂⠩", "⡂⢘", "⠅⡘", "⢃⠨", "⡃⢐", "⠍⡐", "⢋⠠", "⡋⢀", "⠍⡁", "⢋⠁", "⡋⠁", "⠍⠉", "⠋⠉", "⠋⠉", "⠉⠙", "⠉⠙", "⠉⠩", "⠈⢙", "⠈⡙", "⠈⠩", "⠀⢙", "⠀⡙", "⠀⠩", "⠀⢘", "⠀⡘", "⠀⠨", "⠀⢐", "⠀⡐", "⠀⠠", "⠀⢀", "⠀⡀"] },
        12 => Style { name: "line", interval_ms: 130, frames: &["-", "\\", "|", "/"] },
        13 => Style { name: "line2", interval_ms: 100, frames: &["⠂", "-", "–", "—", "–", "-"] },
        14 => Style { name: "pipe", interval_ms: 100, frames: &["┤", "┘", "┴", "└", "├", "┌", "┬", "┐"] },
        15 => Style { name: "simpleDots", interval_ms: 400, frames: &[".  ", ".. ", "...", "   "] },
        16 => Style { name: "simpleDotsScrolling", interval_ms: 200, frames: &[".  ", ".. ", "...", " ..", "  .", "   "] },
        17 => Style { name: "star", interval_ms: 70, frames: &["✶", "✸", "✹", "✺", "✹", "✷"] },
        18 => Style { name: "star2", interval_ms: 80, frames: &["+", "x", "*"] },
        19 => Style { name: "flip", interval_ms: 70, frames: &["_", "_", "_", "-", "`", "`", "'", "´", "-", "_", "_", "_"] },
        20 => Style { name: "hamburger", interval_ms: 100, frames: &["☱", "☲", "☴"] },
        21 => Style { name: "growVertical", interval_ms: 120, frames: &["▁", "▃", "▄", "▅", "▆", "▇", "▆", "▅", "▄", "▃"] },
        22 => Style { name: "growHorizontal", interval_ms: 120, frames: &["▏", "▎", "▍", "▌", "▋", "▊", "▉", "▊", "▋", "▌", "▍", "▎"] },
        23 => Style { name: "balloon", interval_ms: 140, frames: &[" ", ".", "o", "O", "@", "*", " "] },
        24 => Style { name: "balloon2", interval_ms: 120, frames: &[".", "o", "O", "°", "O", "o", "."] },
        25 => Style { name: "noise", interval_ms: 140, frames: &["▓", "▒", "░"] },
        26 => Style { name: "bounce", interval_ms: 100, frames: &["⠁", "⠂", "⠄", "⠂"] },
        27 => Style { name: "boxBounce", interval_ms: 120, frames: &["▖", "▘", "▝", "▗"] },
        28 => Style { name: "boxBounce2", interval_ms: 100, frames: &["▌", "▀", "▐", "▄"] },
        29 => Style { name: "triangle", interval_ms: 50, frames: &["◢", "◣", "◤", "◥"] },
        30 => Style { name: "arc", interval_ms: 100, frames: &["◜", "◠", "◝", "◞", "◡", "◟"] },
        31 => Style { name: "circle", interval_ms: 120, frames: &["◡", "⊙", "◠"] },
        32 => Style { name: "squareCorners", interval_ms: 180, frames: &["◰", "◳", "◲", "◱"] },
        33 => Style { name: "circleQuarters", interval_ms: 120, frames: &["◴", "◷", "◶", "◵"] },
        34 => Style { name: "circleHalves", interval_ms: 50, frames: &["◐", "◓", "◑", "◒"] },
        35 => Style { name: "squish", interval_ms: 100, frames: &["╫", "╪"] },
        36 => Style { name: "toggle", interval_ms: 250, frames: &["⊶", "⊷"] },
        37 => Style { name: "toggle2", interval_ms: 80, frames: &["▫", "▪"] },
        38 => Style { name: "toggle3", interval_ms: 120, frames: &["□", "■"] },
        39 => Style { name: "toggle4", interval_ms: 100, frames: &["■", "□", "▪", "▫"] },
        40 => Style { name: "toggle5", interval_ms: 100, frames: &["▮", "▯"] },
        41 => Style { name: "toggle6", interval_ms: 300, frames: &["ဝ", "၀"] },
        42 => Style { name: "toggle7", interval_ms: 80, frames: &["⦾", "⦿"] },
        43 => Style { name: "toggle8", interval_ms: 100, frames: &["◍", "◌"] },
        44 => Style { name: "toggle9", interval_ms: 100, frames: &["◉", "◎"] },
        45 => Style { name: "toggle10", interval_ms: 100, frames: &["㊂", "㊀", "㊁"] },
        46 => Style { name: "toggle11", interval_ms: 50, frames: &["⧇", "⧆"] },
        47 => Style { name: "toggle12", interval_ms: 120, frames: &["☗", "☖"] },
        48 => Style { name: "toggle13", interval_ms: 80, frames: &["=", "*", "-"] },
        49 => Style { name: "arrow", interval_ms: 100, frames: &["←", "↖", "↑", "↗", "→", "↘", "↓", "↙"] },
        50 => Style { name: "arrow2", interval_ms: 120, frames: &["▹▹▹▹▹", "▸▹▹▹▹", "▹▸▹▹▹", "▹▹▸▹▹", "▹▹▹▸▹", "▹▹▹▹▸"] },
        51 => Style { name: "bouncingBar", interval_ms: 80, frames: &["[    ]", "[   =]", "[  ==]", "[ ===]", "[====]", "[=== ]", "[==  ]", "[=   ]"] },
        52 => Style { name: "bouncingBall", interval_ms: 80, frames: &["( ●    )", "(  ●   )", "(   ●  )", "(    ● )", "(     ●)", "(    ● )", "(   ●  )", "(  ●   )", "( ●    )", "(●     )"] },
        53 => Style { name: "pong", interval_ms: 80, frames: &["▐⠂       ▌", "▐⠈       ▌", "▐ ⠂      ▌", "▐ ⠠      ▌", "▐  ⡀     ▌", "▐  ⠠     ▌", "▐   ⠂    ▌", "▐   ⠈    ▌", "▐    ⠂   ▌", "▐    ⠠   ▌", "▐     ⡀  ▌", "▐     ⠠  ▌", "▐      ⠂ ▌", "▐      ⠈ ▌", "▐       ⠂▌", "▐       ⠠▌", "▐       ⡀▌", "▐      ⠠ ▌", "▐      ⠂ ▌", "▐     ⠈  ▌", "▐     ⠂  ▌", "▐    ⠠   ▌", "▐    ⡀   ▌", "▐   ⠠    ▌", "▐   ⠂    ▌", "▐  ⠈     ▌", "▐  ⠂     ▌", "▐ ⠠      ▌", "▐ ⡀      ▌", "▐⠠       ▌"] },
        _ => Style { name: "shark", interval_ms: 120, frames: &["▐|\\____________▌", "▐_|\\___________▌", "▐__|\\__________▌", "▐___|\\_________▌", "▐____|\\________▌", "▐_____|\\_______▌", "▐______|\\______▌", "▐_______|\\_____▌", "▐________|\\____▌", "▐_________|\\___▌", "▐__________|\\__▌", "▐___________|\\_▌", "▐____________|\\▌", "▐____________/|▌", "▐___________/|_▌", "▐__________/|__▌", "▐_________/|___▌", "▐________/|____▌", "▐_______/|_____▌", "▐______/|______▌", "▐_____/|_______▌", "▐____/|________▌", "▐___/|_________▌", "▐__/|__________▌", "▐_/|___________▌", "▐/|____________▌"] },
    };
    assert(s@.frames =~= spec_style(i as int).frames);
    s
}

/// Looks a style up by name: the first entry of the table with that name.
pub fn find_style(name: &str) -> (r: Option<usize>)
    ensures
        match r {
            Some(i) => {
                &&& i < STYLE_COUNT
                &&& spec_style(i as int).name == name@
                &&& forall|j: int| 0 <= j < i ==> #[trigger] spec_style(j).name != name@
                &&& forall|j: int|
                    0 <= j < STYLE_COUNT && j != i ==> #[trigger] spec_style(j).name != name@
            },
            None => !is_style_name(name@),
        },
{
    let mut i: usize = 0;
    while i < STYLE_COUNT
        invariant
            i <= STYLE_COUNT,
            forall|j: int| 0 <= j < i ==> #[trigger] spec_style(j).name != name@,
        decreases STYLE_COUNT - i,
    {
        let s = style_at(i);
        if str_eq(s.name, name) {
            proof {
                assert forall|j: int| 0 <= j < STYLE_COUNT && j != i implies #[trigger] spec_style(
                    j,
                ).name != name@ by {
                    lemma_style_names_distinct(i as int, j);
                }
            }
            return Some(i);
        }
        i = i + 1;
    }
    None
}

/// How long the demo shows each style.
pub const DEMO_PAUSE_MS: u64 = 2000;

/// Step `i` of the demo: the style at `i` in the table, shown with its own
/// name as the message; `None` once every style has been shown.
pub fn demo_step(i: usize) -> (r: Option<(usize, &'static str)>)
    ensures
        i < STYLE_COUNT ==> match r {
            Some(step) => step.0 == i && step.1@ == spec_style(i as int).name,
            None => false,
        },
        i >= STYLE_COUNT ==> r is None,
{
    if i < STYLE_COUNT {
        Some((i, style_at(i).name))
    } else {
        None
    }
}

/// Every style of the table can be animated: its interval is positive and it
/// has at least one frame.
pub proof fn lemma_every_style_animatable(i: int)
    requires
        0 <= i < STYLE_COUNT,
    ensures
        animatable(spec_style(i)),
{
}

} // verus!
