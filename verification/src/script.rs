//! The playback script: the commands that step a counter of the runtime
//! and start the effect of each atlas when the counter reaches its
//! threshold.

use vstd::prelude::*;
use vstd::string::*;
use crate::text::decimal;
use crate::text::digit_char;
use crate::text::lemma_decimal_digits;
use crate::text::lemma_decimal_len;
use crate::text::effect_id;
use crate::text::make_effect_id;
use crate::text::push_decimal;

verus! {

/// How many ticks of the runtime pass between the start of one atlas and
/// the start of the next.
pub const TICKS_PER_ATLAS: u64 = 60;

/// The two blocks of the script. The runtime runs `setup` once and
/// `repeating` on every tick.
#[derive(Debug)]
pub struct Script {
    /// Commands that create the counter and set it to zero.
    pub setup: Vec<String>,
    /// Commands that start the effects and step the counter.
    pub repeating: Vec<String>,
}

/// The commands of a block as mathematical values.
pub open spec fn lines(block: Vec<String>) -> Seq<Seq<char>> {
    Seq::new(block@.len(), |i: int| block@[i]@)
}

/// The value of the counter at which the effect of atlas `index` starts.
pub open spec fn threshold(index: nat) -> nat {
    index * TICKS_PER_ATLAS as nat
}

/// The command that removes the counter of an earlier run.
pub open spec fn remove_counter_command(name: Seq<char>) -> Seq<char> {
    "scoreboard objectives remove "@ + name
}

/// The command that creates the counter.
pub open spec fn create_counter_command(name: Seq<char>) -> Seq<char> {
    "scoreboard objectives add "@ + name + " dummy "@ + name
}

/// The command that gives the counter the value zero.
pub open spec fn reset_counter_command(name: Seq<char>) -> Seq<char> {
    "scoreboard players add @p "@ + name + " 0"@
}

/// The command that starts the effect of atlas `index` when the counter
/// stands at `at`.
pub open spec fn trigger_command(name: Seq<char>, index: nat, at: nat) -> Seq<char> {
    "execute @a[scores={"@ + name + "="@ + decimal(at)
        + "}] ~ ~ ~ execute @e[type=armor_stand] ~ ~ ~ particle "@ + effect_id(name, index)
        + " ~ ~ ~"@
}

/// The command that steps the counter while it is not above `bound`.
pub open spec fn increment_command(name: Seq<char>, bound: nat) -> Seq<char> {
    "execute @a[scores={"@ + name + "=.."@ + decimal(bound)
        + "}] ~ ~ ~ scoreboard players add @s "@ + name + " 1"@
}

/// The block that is run once.
pub open spec fn setup_block(name: Seq<char>) -> Seq<Seq<char>> {
    seq![
        remove_counter_command(name),
        create_counter_command(name),
        reset_counter_command(name),
    ]
}

/// The block that is run on every tick, for a run of `atlases` atlases: one
/// trigger for each atlas, in the order of the atlases, then the command
/// that steps the counter.
pub open spec fn repeating_block(name: Seq<char>, atlases: nat) -> Seq<Seq<char>> {
    Seq::new(
        atlases + 1,
        |i: int|
            if i < atlases {
                trigger_command(name, i as nat, threshold(i as nat))
            } else {
                increment_command(name, atlases)
            },
    )
}

fn make_trigger_command(name: &str, index: u32) -> (command: String)
    ensures
        command@ == trigger_command(name@, index as nat, threshold(index as nat)),
{
    let id = make_effect_id(name, index);
    let mut command = String::from_str("execute @a[scores={");
    command.append(name);
    command.append("=");
    push_decimal(&mut command, index as u64 * TICKS_PER_ATLAS);
    command.append("}] ~ ~ ~ execute @e[type=armor_stand] ~ ~ ~ particle ");
    command.append(id.as_str());
    command.append(" ~ ~ ~");
    command
}

fn make_increment_command(name: &str, bound: u64) -> (command: String)
    ensures
        command@ == increment_command(name@, bound as nat),
{
    let mut command = String::from_str("execute @a[scores={");
    command.append(name);
    command.append("=..");
    push_decimal(&mut command, bound);
    command.append("}] ~ ~ ~ scoreboard players add @s ");
    command.append(name);
    command.append(" 1");
    command
}

/// Builds the block that is run once.
pub fn make_setup_block(name: &str) -> (block: Vec<String>)
    ensures
        lines(block) == setup_block(name@),
{
    let mut remove = String::from_str("scoreboard objectives remove ");
    remove.append(name);
    let mut create = String::from_str("scoreboard objectives add ");
    create.append(name);
    create.append(" dummy ");
    create.append(name);
    let mut reset = String::from_str("scoreboard players add @p ");
    reset.append(name);
    reset.append(" 0");
    let mut block: Vec<String> = Vec::new();
    block.push(remove);
    block.push(create);
    block.push(reset);
    assert(lines(block) =~= setup_block(name@));
    block
}

/// Builds the block that is run on every tick, for a run whose last atlas
/// has the index `last_index`.
pub fn make_repeating_block(name: &str, last_index: u32) -> (block: Vec<String>)
    ensures
        lines(block) == repeating_block(name@, last_index as nat + 1),
{
    let mut block: Vec<String> = Vec::new();
    let mut index: u32 = 0;
    loop
        invariant_except_break
            index <= last_index,
            block@.len() == index,
            forall|i: int|
                0 <= i < index ==> (#[trigger] block@[i])@ == trigger_command(
                    name@,
                    i as nat,
                    threshold(i as nat),
                ),
        ensures
            block@.len() == last_index + 1,
            forall|i: int|
                0 <= i <= last_index ==> (#[trigger] block@[i])@ == trigger_command(
                    name@,
                    i as nat,
                    threshold(i as nat),
                ),
        decreases last_index - index,
    {
        block.push(make_trigger_command(name, index));
        if index == last_index {
            break ;
        }
        index = index + 1;
    }
    block.push(make_increment_command(name, last_index as u64 + 1));
    assert(lines(block) =~= repeating_block(name@, last_index as nat + 1));
    block
}

/// Builds the script of a run of the pack `name` whose last atlas has the
/// index `last_index`.
pub fn generate_script(name: &str, last_index: u32) -> (script: Script)
    ensures
        lines(script.setup) == setup_block(name@),
        lines(script.repeating) == repeating_block(name@, last_index as nat + 1),
{
    Script { setup: make_setup_block(name), repeating: make_repeating_block(name, last_index) }
}

/// For a run of `atlases` atlases the repeating block holds one trigger
/// for each atlas, the trigger of atlas `i` in place `i` with the threshold
/// `60 * i`, and after them one command that steps the counter up to
/// `atlases`.
pub proof fn lemma_repeating_block_shape(name: Seq<char>, atlases: nat)
    ensures
        repeating_block(name, atlases).len() == atlases + 1,
        forall|i: int|
            0 <= i < atlases ==> #[trigger] repeating_block(name, atlases)[i] == trigger_command(
                name,
                i as nat,
                (60 * i) as nat,
            ),
        repeating_block(name, atlases)[atlases as int] == increment_command(name, atlases),
{
}

/// No trigger is the command that steps the counter: where a trigger has
/// the first digit of its threshold, that command has a dot.
pub proof fn lemma_trigger_is_no_increment(name: Seq<char>, index: nat, at: nat, bound: nat)
    ensures
        trigger_command(name, index, at) != increment_command(name, bound),
{
    reveal_strlit("=");
    reveal_strlit("=..");
    lemma_decimal_len(at);
    lemma_decimal_digits(at, 0);
    let place = "execute @a[scores={"@.len() + name.len() + 1;
    let digit = choose|d: nat| d < 10 && decimal(at)[0] == #[trigger] digit_char(d);
    assert(trigger_command(name, index, at)[place as int] == digit_char(digit));
    assert(increment_command(name, bound)[place as int] == '.');
}

} // verus!
