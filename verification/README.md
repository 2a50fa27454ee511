# rustngo

Verified logic of a small handheld game console whose games run from an SD card
and reach the hardware through one syscall entry in the firmware.

- `src/syscall.rs`: the request format (operation number and payload bytes), the
  requests a game builds, and how the firmware decodes them; decoding an encoded
  request gives it back.
- `src/bytes.rs`: little-endian 32-bit words in payloads.
- `src/firmware.rs`: the firmware's answers, button names and buzzer commands.
- `src/loader.rs`: the list of games on the card (a `heapless::Vec`) and the menu.
- `src/pong.rs`, `src/cool_game.rs`: the two games as frame functions from state
  and buttons to the next state and the effects to carry out; pong's state stays
  within bounds in which no arithmetic overflows.
- `src/action.rs`: the effects (`Action`) that games and the menu return.
- `app/`: the firmware's hardware set-up and syscall entry, the SD card loader, and
  the game loops that read buttons and carry out the actions.
