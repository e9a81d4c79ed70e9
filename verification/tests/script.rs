use pristine::script::generate_script;
use pristine::script::make_repeating_block;
use pristine::script::make_setup_block;
use pristine::script::TICKS_PER_ATLAS;

#[test]
fn setup_block_creates_the_counter() {
    let block = make_setup_block("clip");
    assert_eq!(
        block,
        vec![
            String::from("scoreboard objectives remove clip"),
            String::from("scoreboard objectives add clip dummy clip"),
            String::from("scoreboard players add @p clip 0"),
        ]
    );
}

#[test]
fn repeating_block_of_a_single_atlas() {
    let block = make_repeating_block("clip", 0);
    assert_eq!(
        block,
        vec![
            String::from(
                "execute @a[scores={clip=0}] ~ ~ ~ execute @e[type=armor_stand] ~ ~ ~ particle clip:i_0 ~ ~ ~"
            ),
            String::from("execute @a[scores={clip=..1}] ~ ~ ~ scoreboard players add @s clip 1"),
        ]
    );
}

#[test]
fn repeating_block_of_three_atlases() {
    let block = make_repeating_block("pristine", 2);
    assert_eq!(
        block,
        vec![
            String::from(
                "execute @a[scores={pristine=0}] ~ ~ ~ execute @e[type=armor_stand] ~ ~ ~ particle pristine:i_0 ~ ~ ~"
            ),
            String::from(
                "execute @a[scores={pristine=60}] ~ ~ ~ execute @e[type=armor_stand] ~ ~ ~ particle pristine:i_1 ~ ~ ~"
            ),
            String::from(
                "execute @a[scores={pristine=120}] ~ ~ ~ execute @e[type=armor_stand] ~ ~ ~ particle pristine:i_2 ~ ~ ~"
            ),
            String::from(
                "execute @a[scores={pristine=..3}] ~ ~ ~ scoreboard players add @s pristine 1"
            ),
        ]
    );
}

#[test]
fn repeating_block_has_one_trigger_for_each_atlas() {
    assert_eq!(TICKS_PER_ATLAS, 60);
    for last_index in [0u32, 1, 5, 99] {
        let atlases = last_index as usize + 1;
        let block = make_repeating_block("n", last_index);
        assert_eq!(block.len(), atlases + 1);
        for (index, command) in block.iter().take(atlases).enumerate() {
            let expected = format!(
                "execute @a[scores={{n={}}}] ~ ~ ~ execute @e[type=armor_stand] ~ ~ ~ particle n:i_{} ~ ~ ~",
                60 * index,
                index
            );
            assert_eq!(*command, expected);
        }
        let stepping: Vec<&String> =
            block.iter().filter(|command| command.contains("scoreboard players add")).collect();
        assert_eq!(stepping.len(), 1);
        assert_eq!(
            *block[atlases],
            format!("execute @a[scores={{n=..{}}}] ~ ~ ~ scoreboard players add @s n 1", atlases)
        );
    }
}

#[test]
fn script_holds_both_blocks() {
    let script = generate_script("clip", 1);
    assert_eq!(script.setup, make_setup_block("clip"));
    assert_eq!(script.repeating, make_repeating_block("clip", 1));
    assert_eq!(script.setup.len(), 3);
    assert_eq!(script.repeating.len(), 3);
}
