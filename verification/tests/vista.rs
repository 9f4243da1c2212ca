use ratjack::deck::{Carta, Palo};
use ratjack::player::Jugador;
use ratjack::ui::GameState;
use ratjack::vista::{
    arte_carta, pie_de_pagina, texto_ganadas, texto_mano, texto_numero, texto_puntos,
};

fn carta(valor: u8, palo: Palo) -> Carta {
    Carta { valor, palo }
}

#[test]
fn test_texto_numero() {
    assert_eq!(texto_numero(0), "0");
    assert_eq!(texto_numero(7), "7");
    assert_eq!(texto_numero(10), "10");
    assert_eq!(texto_numero(21), "21");
    assert_eq!(texto_numero(255), "255");
    assert_eq!(texto_numero(4294967295), "4294967295");
}

#[test]
fn test_arte_carta() {
    let arte = arte_carta(&carta(1, Palo::Picas));
    assert_eq!(arte, "\n╭─────╮\n│  A  │\n│  ♤  │\n│  A  │\n╰─────╯\n");

    let arte_diez = arte_carta(&carta(10, Palo::Corazones));
    assert_eq!(arte_diez, "\n╭─────╮\n│ 10  │\n│  ♡  │\n│ 10  │\n╰─────╯\n");
}

#[test]
fn test_texto_mano_vacia() {
    let jugador = Jugador::nuevo();
    assert_eq!(texto_mano(&jugador, false, true), "[Sin cartas]");
}

#[test]
fn test_texto_mano_jugador() {
    let mut jugador = Jugador::nuevo();
    jugador.mano = vec![carta(2, Palo::Treboles), carta(13, Palo::Diamantes)];
    let texto = texto_mano(&jugador, false, false);
    let esperado = format!(
        "{} {} ",
        "\n╭─────╮\n│  2  │\n│  ♧  │\n│  2  │\n╰─────╯\n",
        "\n╭─────╮\n│  K  │\n│  ♢  │\n│  K  │\n╰─────╯\n"
    );
    assert_eq!(texto, esperado);
}

#[test]
fn test_texto_mano_banca_tapada() {
    let mut banca = Jugador::nuevo();
    banca.mano = vec![carta(5, Palo::Corazones), carta(9, Palo::Picas)];
    let texto = texto_mano(&banca, true, false);
    let esperado = format!(
        "{} {}",
        "\n╭─────╮\n│  5  │\n│  ♡  │\n│  5  │\n╰─────╯\n",
        "\n+ ocultas"
    );
    assert_eq!(texto, esperado);
}

#[test]
fn test_texto_mano_banca_destapada() {
    let mut banca = Jugador::nuevo();
    banca.mano = vec![carta(5, Palo::Corazones), carta(9, Palo::Picas)];
    let texto = texto_mano(&banca, true, true);
    assert!(texto.ends_with("╰─────╯\n "));
    assert!(!texto.contains("ocultas"));
}

#[test]
fn test_texto_puntos() {
    let mut jugador = Jugador::nuevo();
    jugador.puntos = 18;
    assert_eq!(texto_puntos(&jugador, true), "18");
    assert_eq!(texto_puntos(&jugador, false), "?");
}

#[test]
fn test_texto_ganadas() {
    let mut jugador = Jugador::nuevo();
    jugador.partidas_ganadas = 12;
    assert_eq!(texto_ganadas(&jugador), "Ganadas: 12");
}

#[test]
fn test_pie_de_pagina() {
    assert_eq!(pie_de_pagina(GameState::Inicio), "↵:Comenzar | q:Salir");
    assert_eq!(
        pie_de_pagina(GameState::TurnoJugador),
        "↵/1/p:Pedir | 2/s:Plantarse | q:Salir"
    );
    assert_eq!(
        pie_de_pagina(GameState::FinJuego),
        "↵/n:Nueva Partida | q:Salir"
    );
    assert_eq!(pie_de_pagina(GameState::TurnoBanca), "q:Salir");
}
