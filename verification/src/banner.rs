//! The lines that are logged when the server starts.
use crate::logger::{fill, lemma_fill_plain, lemma_fill_step, line, plain, Color};
use vstd::prelude::*;

verus! {

/// The template of the lines that are logged when the server starts. Its
/// four arguments are the port, the number of workers, and whether HTTPS and
/// CORS are enabled.
pub const BANNER: &'static str = "\n\n ========================================================================================================\n \n   _____ _                 _        _    _ _______ _______ _____     _____                          \n  / ____(_)               | |      | |  | |__   __|__   __|  __ \\   / ____|                         \n | (___  _ _ __ ___  _ __ | | ___  | |__| |  | |     | |  | |__) | | (___   ___ _ ____   _____ _ __ \n  \\___ \\| | '_ ` _ \\| '_ \\| |/ _ \\ |  __  |  | |     | |  |  ___/   \\___ \\ / _ \\ '__\\ \\ / / _ \\ '__|\n  ____) | | | | | | | |_) | |  __/ | |  | |  | |     | |  | |       ____) |  __/ |   \\ V /  __/ |   \n |_____/|_|_| |_| |_| .__/|_|\\___| |_|  |_|  |_|     |_|  |_|      |_____/ \\___|_|    \\_/ \\___|_|   \n                    | |                                                                             \n                    |_|                                                                             \n\n=========================================================================================================\n\nPort: {}\nThreads: {}\nHTTPS: {}\nCORS: {}\n\n====================\nLogs:";

/// The banner fills with any four arguments: it holds four placeholders and
/// no other brace.
pub proof fn lemma_banner_fills(args: Seq<(Seq<char>, Option<Color>)>)
    requires
        args.len() == 4,
    ensures
        line(BANNER@, args) is Ok,
{
    reveal_strlit("\n\n ========================================================================================================\n \n   _____ _                 _        _    _ _______ _______ _____     _____                          \n  / ____(_)               | |      | |  | |__   __|__   __|  __ \\   / ____|                         \n | (___  _ _ __ ___  _ __ | | ___  | |__| |  | |     | |  | |__) | | (___   ___ _ ____   _____ _ __ \n  \\___ \\| | '_ ` _ \\| '_ \\| |/ _ \\ |  __  |  | |     | |  |  ___/   \\___ \\ / _ \\ '__\\ \\ / / _ \\ '__|\n  ____) | | | | | | | |_) | |  __/ | |  | |  | |     | |  | |       ____) |  __/ |   \\ V /  __/ |   \n |_____/|_|_| |_| |_| .__/|_|\\___| |_|  |_|  |_|     |_|  |_|      |_____/ \\___|_|    \\_/ \\___|_|   \n                    | |                                                                             \n                    |_|                                                                             \n\n=========================================================================================================\n\nPort: {}\nThreads: {}\nHTTPS: {}\nCORS: {}\n\n====================\nLogs:");
    let b = BANNER@;
    assert(b.len() == 1093);
    assert(plain(b, 984, 1032)) by {
        reveal_with_fuel(plain, 50);
    }
    assert(plain(b, 936, 1032)) by {
        reveal_with_fuel(plain, 50);
    }
    assert(plain(b, 888, 1032)) by {
        reveal_with_fuel(plain, 50);
    }
    assert(plain(b, 840, 1032)) by {
        reveal_with_fuel(plain, 50);
    }
    assert(plain(b, 792, 1032)) by {
        reveal_with_fuel(plain, 50);
    }
    assert(plain(b, 744, 1032)) by {
        reveal_with_fuel(plain, 50);
    }
    assert(plain(b, 696, 1032)) by {
        reveal_with_fuel(plain, 50);
    }
    assert(plain(b, 648, 1032)) by {
        reveal_with_fuel(plain, 50);
    }
    assert(plain(b, 600, 1032)) by {
        reveal_with_fuel(plain, 50);
    }
    assert(plain(b, 552, 1032)) by {
        reveal_with_fuel(plain, 50);
    }
    assert(plain(b, 504, 1032)) by {
        reveal_with_fuel(plain, 50);
    }
    assert(plain(b, 456, 1032)) by {
        reveal_with_fuel(plain, 50);
    }
    assert(plain(b, 408, 1032)) by {
        reveal_with_fuel(plain, 50);
    }
    assert(plain(b, 360, 1032)) by {
        reveal_with_fuel(plain, 50);
    }
    assert(plain(b, 312, 1032)) by {
        reveal_with_fuel(plain, 50);
    }
    assert(plain(b, 264, 1032)) by {
        reveal_with_fuel(plain, 50);
    }
    assert(plain(b, 216, 1032)) by {
        reveal_with_fuel(plain, 50);
    }
    assert(plain(b, 168, 1032)) by {
        reveal_with_fuel(plain, 50);
    }
    assert(plain(b, 120, 1032)) by {
        reveal_with_fuel(plain, 50);
    }
    assert(plain(b, 72, 1032)) by {
        reveal_with_fuel(plain, 50);
    }
    assert(plain(b, 24, 1032)) by {
        reveal_with_fuel(plain, 50);
    }
    assert(plain(b, 0, 1032)) by {
        reveal_with_fuel(plain, 50);
    }
    assert(plain(b, 1034, 1044)) by {
        reveal_with_fuel(plain, 12);
    }
    assert(plain(b, 1046, 1054)) by {
        reveal_with_fuel(plain, 10);
    }
    assert(plain(b, 1056, 1063)) by {
        reveal_with_fuel(plain, 9);
    }
    assert(plain(b, 1065, 1093)) by {
        reveal_with_fuel(plain, 30);
    }
    assert(b.skip(0) =~= b);
    lemma_fill_step(b, args, 0, 0, 1032);
    lemma_fill_step(b, args, 1, 1034, 1044);
    lemma_fill_step(b, args, 2, 1046, 1054);
    lemma_fill_step(b, args, 3, 1056, 1063);
    lemma_fill_plain(b, args, 4, 1065, 1093);
    assert(b.skip(1093).len() == 0);
    assert(fill(b.skip(1093), args, 4) is Ok);
}

} // verus!
